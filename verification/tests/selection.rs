use html_parser::document::{Attribute, Document, Node, Predicate};
use html_parser::html::{Html, HtmlAttribute, HtmlDocument, HtmlError, HtmlTag};
use html_parser::text::same_text;

fn attribute(name: &str, value: &str) -> Attribute {
    Attribute { name: name.to_string(), value: value.to_string() }
}

fn element(name: &str, attributes: Vec<Attribute>) -> Node {
    Node::Element { name: name.to_string(), attributes }
}

fn sample() -> Document {
    Document {
        nodes: vec![
            element("div", vec![attribute("class", "nav")]),
            element("a", vec![attribute("href", "https://www.one.example/")]),
            Node::Text("one".to_string()),
            element("A", vec![attribute("HREF", "http://two.example")]),
            element("a", vec![attribute("name", "anchor")]),
            Node::Comment("a".to_string()),
            element("span", vec![attribute("href", "//three.example/")]),
            element("a", vec![attribute("href", "first"), attribute("href", "second")]),
        ],
    }
}

#[test]
fn predicates_from_names() {
    assert!(matches!(Predicate::by_tag("a"), Ok(Predicate::Tag(HtmlTag::A))));
    assert!(matches!(Predicate::by_tag("SPAN"), Ok(Predicate::Tag(HtmlTag::Span))));
    assert!(matches!(
        Predicate::has_attribute("Href"),
        Ok(Predicate::HasAttribute(HtmlAttribute::Href))
    ));
}

#[test]
fn unknown_names_make_no_predicate() {
    assert!(matches!(Predicate::by_tag("blink"), Err(HtmlError::InvalidTag)));
    assert!(matches!(Predicate::by_tag(""), Err(HtmlError::InvalidTag)));
    assert!(matches!(Predicate::has_attribute("onclick"), Err(HtmlError::InvalidAttribute)));
}

#[test]
fn tag_predicate_matches_elements_of_that_name() {
    let document = sample();
    let anchors = Predicate::Tag(HtmlTag::A);
    assert!(!anchors.matches(&document.nodes[0]));
    assert!(anchors.matches(&document.nodes[1]));
    assert!(!anchors.matches(&document.nodes[2]));
    assert!(anchors.matches(&document.nodes[3]));
    assert!(anchors.matches(&document.nodes[4]));
    assert!(!anchors.matches(&document.nodes[5]));
    assert!(!anchors.matches(&document.nodes[6]));
}

#[test]
fn attribute_predicate_matches_elements_that_carry_it() {
    let document = sample();
    let with_href = Predicate::HasAttribute(HtmlAttribute::Href);
    assert!(!with_href.matches(&document.nodes[0]));
    assert!(with_href.matches(&document.nodes[1]));
    assert!(!with_href.matches(&document.nodes[2]));
    assert!(with_href.matches(&document.nodes[3]));
    assert!(!with_href.matches(&document.nodes[4]));
    assert!(with_href.matches(&document.nodes[6]));
}

#[test]
fn conjunction_and_disjunction() {
    let document = sample();
    let both = Predicate::Tag(HtmlTag::A).and(Predicate::HasAttribute(HtmlAttribute::Href));
    assert_eq!(document.find(&both), vec![1, 3, 7]);
    let either = Predicate::Tag(HtmlTag::Div).or(Predicate::Tag(HtmlTag::Span));
    assert_eq!(document.find(&either), vec![0, 6]);
    let never = Predicate::Tag(HtmlTag::A).and(Predicate::Tag(HtmlTag::Span));
    assert_eq!(document.find(&never), Vec::<usize>::new());
}

#[test]
fn find_walks_in_document_order() {
    let document = sample();
    assert_eq!(document.find(&Predicate::Tag(HtmlTag::A)), vec![1, 3, 4, 7]);
    assert_eq!(document.find(&Predicate::HasAttribute(HtmlAttribute::Href)), vec![1, 3, 6, 7]);
    assert_eq!(document.find(&Predicate::Tag(HtmlTag::Link)), Vec::<usize>::new());
}

#[test]
fn find_can_be_repeated_with_other_predicates() {
    let document = sample();
    let first = document.find(&Predicate::Tag(HtmlTag::A));
    let _ = document.find(&Predicate::Tag(HtmlTag::Span));
    assert_eq!(document.find(&Predicate::Tag(HtmlTag::A)), first);
}

#[test]
fn attribute_lookup() {
    let document = sample();
    assert_eq!(document.nodes[1].attr(HtmlAttribute::Href), Some("https://www.one.example/"));
    assert_eq!(document.nodes[3].attr(HtmlAttribute::Href), Some("http://two.example"));
    assert_eq!(document.nodes[4].attr(HtmlAttribute::Href), None);
    assert_eq!(document.nodes[2].attr(HtmlAttribute::Href), None);
    assert_eq!(document.nodes[5].attr(HtmlAttribute::Href), None);
    assert_eq!(document.nodes[7].attr(HtmlAttribute::Href), Some("first"));
}

#[test]
fn tag_test_on_nodes() {
    let document = sample();
    assert!(document.nodes[3].is_tag(HtmlTag::A));
    assert!(!document.nodes[3].is_tag(HtmlTag::Span));
    assert!(!document.nodes[2].is_tag(HtmlTag::A));
}

#[test]
fn links_of_a_document() {
    let document = sample();
    assert_eq!(
        document.links(&Predicate::Tag(HtmlTag::A), HtmlAttribute::Href),
        vec!["one.example".to_string(), "two.example".to_string(), "first".to_string()]
    );
    assert_eq!(
        document.links(&Predicate::Tag(HtmlTag::Span), HtmlAttribute::Href),
        vec!["three.example".to_string()]
    );
    assert_eq!(
        document.links(&Predicate::Tag(HtmlTag::Div), HtmlAttribute::Href),
        Vec::<String>::new()
    );
    assert_eq!(
        document.links(&Predicate::HasAttribute(HtmlAttribute::Href), HtmlAttribute::Href),
        vec![
            "one.example".to_string(),
            "two.example".to_string(),
            "three.example".to_string(),
            "first".to_string()
        ]
    );
}

#[test]
fn links_of_an_empty_document() {
    let document = Document { nodes: Vec::new() };
    assert_eq!(
        document.links(&Predicate::Tag(HtmlTag::A), HtmlAttribute::Href),
        Vec::<String>::new()
    );
    assert_eq!(document.find(&Predicate::Tag(HtmlTag::A)), Vec::<usize>::new());
}

#[test]
fn find_on_a_built_document() {
    let html = Html::new("<div><a href=\"x\">1</a><span><a>2</a></span></div>".to_string());
    let document = html.document().unwrap();
    let anchors = document.find(&Predicate::Tag(HtmlTag::A));
    assert_eq!(anchors.len(), 2);
    assert!(anchors[0] < anchors[1]);
    let spans = document.find(&Predicate::Tag(HtmlTag::Span));
    assert_eq!(spans.len(), 1);
    assert!(anchors[0] < spans[0] && spans[0] < anchors[1]);
    let divs = document.find(&Predicate::Tag(HtmlTag::Div));
    assert_eq!(divs.len(), 1);
    assert!(divs[0] < anchors[0]);
}

#[test]
fn texts_are_compared_by_their_characters() {
    assert!(same_text("href", "href"));
    assert!(!same_text("href", "HREF"));
    assert!(!same_text("a", "area"));
    assert!(same_text("", ""));
}

#[test]
fn lowered_copies_bring_names_into_lowercase() {
    let document = sample().lowered();
    assert_eq!(document.nodes.len(), sample().nodes.len());
    assert_eq!(
        document.nodes[3],
        element("a", vec![attribute("href", "http://two.example")])
    );
    assert_eq!(document.nodes[2], Node::Text("one".to_string()));
    assert_eq!(document.nodes[5], Node::Comment("a".to_string()));
    assert_eq!(sample().nodes[3].lowered(), document.nodes[3]);
    assert_eq!(attribute("HREF", "Kept/As/Is").lowered(), attribute("href", "Kept/As/Is"));
}

#[test]
fn exact_functions_take_names_letter_for_letter() {
    let document = sample();
    let anchors = Predicate::Tag(HtmlTag::A);
    assert!(anchors.matches_exact(&document.nodes[1]));
    assert!(!anchors.matches_exact(&document.nodes[3]));
    assert!(document.nodes[1].is_tag_exact(HtmlTag::A));
    assert!(!document.nodes[3].is_tag_exact(HtmlTag::A));
    assert_eq!(document.nodes[3].attr_exact(HtmlAttribute::Href), None);
    assert_eq!(document.nodes[3].attr_position_exact(HtmlAttribute::Href), None);
    assert_eq!(document.nodes[1].attr_exact(HtmlAttribute::Href), Some("https://www.one.example/"));
    assert_eq!(document.nodes[7].attr_position_exact(HtmlAttribute::Href), Some(0));
    assert_eq!(document.nodes[2].attr_position_exact(HtmlAttribute::Href), None);
    assert_eq!(document.find_exact(&anchors), vec![1, 4, 7]);
    assert_eq!(
        document.links_exact(&anchors, HtmlAttribute::Href),
        vec!["one.example".to_string(), "first".to_string()]
    );
}

#[test]
fn exact_and_lowered_agree_on_lowercase_documents() {
    let document = sample().lowered();
    for predicate in [
        Predicate::Tag(HtmlTag::A),
        Predicate::HasAttribute(HtmlAttribute::Href),
        Predicate::Tag(HtmlTag::Span).or(Predicate::Tag(HtmlTag::Div)),
    ] {
        assert_eq!(document.find_exact(&predicate), sample().find(&predicate));
        assert_eq!(
            document.links_exact(&predicate, HtmlAttribute::Href),
            sample().links(&predicate, HtmlAttribute::Href)
        );
    }
}

#[test]
fn attribute_position_skips_other_names() {
    let node = element(
        "a",
        vec![attribute("id", "x"), attribute("class", "y"), attribute("href", "z"), attribute("href", "w")],
    );
    assert_eq!(node.attr_position_exact(HtmlAttribute::Href), Some(2));
    assert_eq!(node.attr_exact(HtmlAttribute::Href), Some("z"));
    assert_eq!(node.attr(HtmlAttribute::Href), Some("z"));
}
