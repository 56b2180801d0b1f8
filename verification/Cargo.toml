[package]
name = "html_parser"
version = "0.1.0"
edition = "2021"
publish = false

[dependencies]
bytes = "1"
select = "0.6"
structopt = "0.3"
