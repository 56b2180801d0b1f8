//! Extraction of hyperlink targets from HTML documents.
//!
//! A source of bytes is decoded and built into a [`document::Document`], the
//! nodes of the document are matched against a [`document::Predicate`] in
//! document order, an attribute is read from each matched node, and every
//! value found is brought into the canonical form that [`link::normalized`]
//! describes. Failures of any layer convert upward into [`error::SystemError`]
//! and keep their cause.

pub mod document;
pub mod error;
pub mod file;
pub mod html;
pub mod link;
pub mod parser;
pub mod pipeline;
pub mod text;
