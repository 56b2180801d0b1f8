use html_parser::parser::{Parser, Utils};

fn fix(link: &str) -> &str {
    Parser::<Utils>::fix_link(link)
}

#[test]
fn strips_every_affix_of_a_full_url() {
    assert_eq!(fix("https://www.example.com/"), "example.com");
}

#[test]
fn strips_secure_scheme() {
    assert_eq!(fix("httpsexample"), "example");
}

#[test]
fn strips_plain_scheme() {
    assert_eq!(fix("http://example.com"), "example.com");
}

#[test]
fn strips_leading_colon() {
    assert_eq!(fix(":example"), "example");
}

#[test]
fn strips_leading_double_slash() {
    assert_eq!(fix("//example.com/path"), "example.com/path");
}

#[test]
fn strips_web_prefix() {
    assert_eq!(fix("www.example.com"), "example.com");
}

#[test]
fn strips_trailing_slash() {
    assert_eq!(fix("example.com/"), "example.com");
}

#[test]
fn value_without_affix_is_unchanged() {
    assert_eq!(fix("example.com/page"), "example.com/page");
    assert_eq!(fix("/relative"), "/relative");
    assert_eq!(fix("mailto:someone@example.com"), "mailto:someone@example.com");
    assert_eq!(fix(""), "");
}

#[test]
fn affix_only_values_become_empty() {
    assert_eq!(fix("http://"), "");
    assert_eq!(fix("https://"), "");
    assert_eq!(fix("https://www./"), "");
    assert_eq!(fix("/"), "");
}

#[test]
fn each_affix_is_stripped_once() {
    assert_eq!(fix("httpshttps://example"), "s://example");
    assert_eq!(fix("http://http://example"), "http://example");
    assert_eq!(fix("::example"), ":example");
    assert_eq!(fix("////example"), "//example");
    assert_eq!(fix("www.www.example"), "www.example");
    assert_eq!(fix("example//"), "example/");
}

#[test]
fn affixes_are_stripped_in_their_order() {
    assert_eq!(fix("www.https://example"), "https://example");
    assert_eq!(fix("//http://example"), "http://example");
    assert_eq!(fix(":www.example"), "example");
    assert_eq!(fix("http:www.example"), "example");
}

#[test]
fn scheme_letters_are_stripped_without_a_separator() {
    assert_eq!(fix("httpd.example.org"), "d.example.org");
    assert_eq!(fix("https-everywhere"), "-everywhere");
}

#[test]
fn affixes_inside_the_value_stay() {
    assert_eq!(fix("example.com/http://www.other/x"), "example.com/http://www.other/x");
}

#[test]
fn scheme_is_matched_by_exact_letters() {
    assert_eq!(fix("HTTPS://WWW.EXAMPLE.COM/"), "HTTPS://WWW.EXAMPLE.COM");
}

#[test]
fn non_ascii_values_are_kept() {
    assert_eq!(fix("https://www.bücher.example/straße/"), "bücher.example/straße");
}

#[test]
fn normalizing_a_settled_link_again_changes_nothing() {
    for raw in ["https://www.example.com/", "http://example.org/a/b/", "example", "//cdn.example/x.js"] {
        let once = fix(raw);
        assert_eq!(fix(once), once);
    }
}

#[test]
fn a_link_that_keeps_an_affix_is_shortened_again() {
    let once = fix("////");
    assert_eq!(once, "/");
    assert_eq!(fix(once), "");
}

#[test]
fn same_input_gives_same_output() {
    assert_eq!(fix("https://www.example.com/"), fix("https://www.example.com/"));
}
