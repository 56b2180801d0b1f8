use html_parser::document::Predicate;
use html_parser::error::SystemError;
use html_parser::html::{Html, HtmlAttribute, HtmlParser, HtmlTag};
use html_parser::parser::{Parser, ParserError};

fn anchors(html: &str) -> Vec<String> {
    Parser::new(Html::new(html.to_string()))
        .links(&Predicate::Tag(HtmlTag::A), HtmlAttribute::Href)
        .unwrap()
}

#[test]
fn single_anchor_is_normalized() {
    let links = anchors("<html><body><a href=\"https://www.example.com/\">x</a></body></html>");
    assert_eq!(links, vec!["example.com".to_string()]);
}

#[test]
fn anchor_without_href_is_passed_over() {
    let links = anchors("<html><body><a>no link</a><a href=\"/relative\">r</a></body></html>");
    assert_eq!(links, vec!["/relative".to_string()]);
}

#[test]
fn invalid_utf8_is_a_decoding_failure() {
    let bytes = vec![b'<', b'a', b'>', 0xff, 0xfe, b'<', b'/', b'a', b'>'];
    let parser = Parser::new(Html::from_bytes(bytes));
    let outcome = parser.links(&Predicate::Tag(HtmlTag::A), HtmlAttribute::Href);
    assert!(matches!(outcome, Err(ParserError::Utf8 { .. })));
    let unified = SystemError::from(outcome.unwrap_err());
    assert!(matches!(unified, SystemError::Utf8 { .. }));
    assert!(unified.to_string().starts_with("[Utf8] error: "));
}

#[test]
fn tag_without_elements_gives_no_links() {
    let parser = Parser::new(Html::new(
        "<html><body><a href=\"https://www.example.com/\">x</a></body></html>".to_string(),
    ));
    let predicate = Predicate::by_tag("span").unwrap();
    let outcome = parser.links(&predicate, HtmlAttribute::Href);
    assert_eq!(outcome.unwrap(), Vec::<String>::new());
}

#[test]
fn affix_only_value_becomes_an_empty_link() {
    let links = anchors("<a href=\"http://\">empty</a><a href=\"https://b.example/\">b</a>");
    assert_eq!(links, vec!["".to_string(), "b.example".to_string()]);
}

#[test]
fn links_come_in_document_order() {
    let links = anchors(
        "<div><a href=\"http://one.example\">1</a><p><a href=\"http://two.example\">2</a></p></div>\
         <a href=\"http://three.example\">3</a><ul><li><a href=\"http://four.example\">4</a></li></ul>",
    );
    assert_eq!(
        links,
        vec![
            "one.example".to_string(),
            "two.example".to_string(),
            "three.example".to_string(),
            "four.example".to_string(),
        ]
    );
}

#[test]
fn nested_anchor_parents_come_before_children() {
    let parser = Parser::new(Html::new(
        "<div href=\"http://outer\"><div href=\"http://inner\"></div></div><div href=\"http://last\"></div>"
            .to_string(),
    ));
    let links = parser.links(&Predicate::Tag(HtmlTag::Div), HtmlAttribute::Href).unwrap();
    assert_eq!(links, vec!["outer".to_string(), "inner".to_string(), "last".to_string()]);
}

#[test]
fn empty_document_gives_no_links() {
    assert_eq!(anchors(""), Vec::<String>::new());
}

#[test]
fn markup_case_does_not_matter() {
    let links = anchors("<A HREF=\"HTTP://Example.COM/Path/\">x</A>");
    assert_eq!(links, vec!["HTTP://Example.COM/Path".to_string()]);
}

#[test]
fn parser_from_source_extracts_the_same() {
    let html = "<a href=\"https://www.example.com/\">x</a>";
    let parser: Parser<Html> = Parser::from(Html::new(html.to_string()));
    let links = parser.links(&Predicate::Tag(HtmlTag::A), HtmlAttribute::Href).unwrap();
    assert_eq!(links, anchors(html));
}

#[test]
fn same_source_can_be_queried_again() {
    let parser = Parser::new(Html::new(
        "<a href=\"http://a.example\">a</a><link href=\"http://style.example/\"><area href=\"//map\">"
            .to_string(),
    ));
    let by_a = parser.links(&Predicate::Tag(HtmlTag::A), HtmlAttribute::Href).unwrap();
    let by_link = parser.links(&Predicate::Tag(HtmlTag::Link), HtmlAttribute::Href).unwrap();
    let by_area = parser.links(&Predicate::Tag(HtmlTag::Area), HtmlAttribute::Href).unwrap();
    let again = parser.links(&Predicate::Tag(HtmlTag::A), HtmlAttribute::Href).unwrap();
    assert_eq!(by_a, vec!["a.example".to_string()]);
    assert_eq!(by_link, vec!["style.example".to_string()]);
    assert_eq!(by_area, vec!["map".to_string()]);
    assert_eq!(again, by_a);
}

#[test]
fn attribute_values_are_taken_as_the_document_means_them() {
    let links = anchors("<a href=\"http://a.example/?x=1&amp;y=2\">q</a><a href=' //spaced/ '>s</a>");
    assert_eq!(links, vec!["a.example/?x=1&y=2".to_string(), " //spaced/ ".to_string()]);
}

#[test]
fn repeated_attribute_counts_once() {
    let links = anchors("<a href=\"http://first.example\" href=\"http://second.example\">x</a>");
    assert_eq!(links, vec!["first.example".to_string()]);
}

#[test]
fn compound_predicate_on_a_source() {
    let parser = Parser::new(Html::new(
        "<span href=\"//s\">s</span><a>bare</a><a href=\"//a\">a</a><div href=\"//d\">d</div>".to_string(),
    ));
    let anchors_with_target =
        Predicate::by_tag("a").unwrap().and(Predicate::has_attribute("href").unwrap());
    assert_eq!(
        parser.links(&anchors_with_target, HtmlAttribute::Href).unwrap(),
        vec!["a".to_string()]
    );
    let containers = Predicate::Tag(HtmlTag::Span).or(Predicate::Tag(HtmlTag::Div));
    assert_eq!(
        parser.links(&containers, HtmlAttribute::Href).unwrap(),
        vec!["s".to_string(), "d".to_string()]
    );
}
