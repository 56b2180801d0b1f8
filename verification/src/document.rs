//! The document as the extraction reads it: its nodes in document order, the
//! predicates that select among them, and the links that a selection yields.
//!
//! Names are compared letter for letter by everything whose name ends in
//! `_exact` and by the spec functions; the functions without that ending first
//! bring the names of the document into lowercase and so compare whatever the
//! case of the letters.

use vstd::prelude::*;

use crate::html::{HtmlAttribute, HtmlError, HtmlTag};
use crate::link::normalized;
use crate::parser::{Parser, Utils};
use crate::text::{lowercase_of, same_text, to_lowercase};
use select::node::Data;
use vstd::utf8::encode_utf8;

verus! {

/// The longest document, in bytes, that is built into a tree. The tree
/// builder measures its buffers with 32 bits; up to this length no buffer that
/// it fills from the document can outgrow them.
pub const MAX_DOCUMENT_LEN: usize = 0x2000_0000;

/// The most `<` that a document may hold to be built into a tree. The tree
/// is laid out by a function that calls itself once per level of nesting, and
/// a level takes a tag to open, or half a tag where a table cell brings its
/// row and section with it. With this many tags the nesting stays near five
/// hundred levels, which a stack of one mebibyte bears with room to spare.
pub const MAX_TAGS: usize = 256;

/// The byte that opens a tag.
pub const TAG_OPEN: u8 = 0x3c;

/// How often `byte` occurs in `bytes`.
pub open spec fn count_of(bytes: Seq<u8>, byte: u8) -> nat
    decreases bytes.len(),
{
    if bytes.len() == 0 {
        0
    } else if bytes.last() == byte {
        count_of(bytes.drop_last(), byte) + 1
    } else {
        count_of(bytes.drop_last(), byte)
    }
}

/// Whether a document of these bytes is within what is built into a tree:
/// no longer than `MAX_DOCUMENT_LEN` and with no more than `MAX_TAGS` tags.
pub open spec fn buildable(bytes: Seq<u8>) -> bool {
    bytes.len() <= MAX_DOCUMENT_LEN && count_of(bytes, TAG_OPEN) <= MAX_TAGS
}

/// Tests whether a document of these bytes is within what is built into a
/// tree.
pub fn fits(bytes: &[u8]) -> (within: bool)
    ensures
        within == buildable(bytes@),
{
    if bytes.len() > MAX_DOCUMENT_LEN {
        return false;
    }
    let mut tags: usize = 0;
    let mut i: usize = 0;
    while i < bytes.len()
        invariant
            i <= bytes.len(),
            bytes.len() <= MAX_DOCUMENT_LEN,
            tags == count_of(bytes@.take(i as int), TAG_OPEN),
            tags <= i,
        decreases bytes.len() - i,
    {
        proof {
            assert(bytes@.take(i + 1).drop_last() == bytes@.take(i as int));
        }
        if bytes[i] == TAG_OPEN {
            tags += 1;
        }
        i += 1;
    }
    proof {
        assert(bytes@.take(i as int) == bytes@);
    }
    tags <= MAX_TAGS
}

/// One attribute of an element, as the document wrote it.
#[derive(Debug, PartialEq, Eq)]
pub struct Attribute {
    pub name: String,
    pub value: String,
}

/// One node of a document.
#[derive(Debug, PartialEq, Eq)]
pub enum Node {
    Element { name: String, attributes: Vec<Attribute> },
    Text(String),
    Comment(String),
}

/// A document: its nodes in document order, which is the order of a
/// pre-order walk of the tree, parents before children and siblings from left
/// to right.
#[derive(Debug, PartialEq, Eq)]
pub struct Document {
    pub nodes: Vec<Node>,
}

/// What an `Attribute` holds, as sequences of characters.
pub struct AttributeView {
    pub name: Seq<char>,
    pub value: Seq<char>,
}

/// What a `Node` holds, as sequences of characters.
pub enum NodeView {
    Element { name: Seq<char>, attributes: Seq<AttributeView> },
    Text(Seq<char>),
    Comment(Seq<char>),
}

impl View for Attribute {
    type V = AttributeView;

    open spec fn view(&self) -> AttributeView {
        AttributeView { name: self.name@, value: self.value@ }
    }
}

impl View for Node {
    type V = NodeView;

    open spec fn view(&self) -> NodeView {
        match *self {
            Node::Element { name, attributes } => NodeView::Element {
                name: name@,
                attributes: attributes@.map_values(|attribute: Attribute| attribute@),
            },
            Node::Text(text) => NodeView::Text(text@),
            Node::Comment(text) => NodeView::Comment(text@),
        }
    }
}

impl View for Document {
    type V = Seq<NodeView>;

    open spec fn view(&self) -> Seq<NodeView> {
        self.nodes@.map_values(|node: Node| node@)
    }
}

/// The place of the first of `attributes` whose name is that of `attribute`,
/// letter for letter.
pub open spec fn first_position(attributes: Seq<AttributeView>, attribute: HtmlAttribute) -> Option<
    int,
>
    decreases attributes.len(),
{
    if attributes.len() == 0 {
        None
    } else if attributes[0].name == attribute.name() {
        Some(0)
    } else {
        match first_position(attributes.drop_first(), attribute) {
            Some(place) => Some(place + 1),
            None => None,
        }
    }
}

/// `first_position` gives the first place where the name stands: a place
/// before which no attribute has the name and at which one has it is the
/// place given, and where no attribute has the name no place is given.
pub proof fn lemma_first_position(
    attributes: Seq<AttributeView>,
    attribute: HtmlAttribute,
    place: int,
)
    requires
        0 <= place <= attributes.len(),
        forall|j: int| 0 <= j < place ==> (#[trigger] attributes[j]).name != attribute.name(),
    ensures
        place < attributes.len() && attributes[place].name == attribute.name() ==> first_position(
            attributes,
            attribute,
        ) == Some(place),
        place == attributes.len() ==> first_position(attributes, attribute) is None,
    decreases attributes.len(),
{
    if attributes.len() > 0 && place > 0 {
        let rest = attributes.drop_first();
        assert(attributes[0].name != attribute.name());
        assert forall|j: int| 0 <= j < place - 1 implies (#[trigger] rest[j]).name
            != attribute.name() by {
            assert(rest[j] == attributes[j + 1]);
        }
        assert(place - 1 < rest.len() ==> rest[place - 1] == attributes[place]);
        lemma_first_position(rest, attribute, place - 1);
    }
}

impl AttributeView {
    /// The attribute with its name in lowercase.
    pub open spec fn lowered(self) -> AttributeView {
        AttributeView { name: lowercase_of(self.name), value: self.value }
    }
}

impl NodeView {
    /// The node with the names of the element and of its attributes in
    /// lowercase. Values and texts stay as they are.
    pub open spec fn lowered(self) -> NodeView {
        match self {
            NodeView::Element { name, attributes } => NodeView::Element {
                name: lowercase_of(name),
                attributes: attributes.map_values(|attribute: AttributeView| attribute.lowered()),
            },
            other => other,
        }
    }

    /// Whether the node is an element of the given name, letter for letter.
    pub open spec fn is_tag(self, tag: HtmlTag) -> bool {
        match self {
            NodeView::Element { name, .. } => name == tag.name(),
            _ => false,
        }
    }

    /// The place among the node's attributes of the first that has the name
    /// of `attribute`, letter for letter. Only an element has attributes.
    pub open spec fn attr_position(self, attribute: HtmlAttribute) -> Option<int> {
        match self {
            NodeView::Element { attributes, .. } => first_position(attributes, attribute),
            _ => None,
        }
    }

    /// The value that the node gives the attribute: that of the first
    /// attribute of that name, letter for letter.
    pub open spec fn attr(self, attribute: HtmlAttribute) -> Option<Seq<char>> {
        match self.attr_position(attribute) {
            Some(place) => Some(self->attributes[place].value),
            None => None,
        }
    }
}

/// The nodes of a document with all names in lowercase.
pub open spec fn lowered_nodes(nodes: Seq<NodeView>) -> Seq<NodeView> {
    nodes.map_values(|node: NodeView| node.lowered())
}

/// A test on a single node.
#[derive(Debug, PartialEq, Eq)]
pub enum Predicate {
    /// Holds of the elements of this name.
    Tag(HtmlTag),
    /// Holds of the elements that carry this attribute.
    HasAttribute(HtmlAttribute),
    /// Holds where both hold.
    And(Box<Predicate>, Box<Predicate>),
    /// Holds where one of the two holds.
    Or(Box<Predicate>, Box<Predicate>),
}

impl Predicate {
    /// Whether the predicate holds of a node, names taken letter for letter.
    pub open spec fn holds(self, node: NodeView) -> bool
        decreases self,
    {
        match self {
            Predicate::Tag(tag) => node.is_tag(tag),
            Predicate::HasAttribute(attribute) => node.attr(attribute) is Some,
            Predicate::And(left, right) => left.holds(node) && right.holds(node),
            Predicate::Or(left, right) => left.holds(node) || right.holds(node),
        }
    }

    /// The predicate for the elements that `name` names. A name that is no
    /// supported element is refused here, before any document is walked.
    pub fn by_tag(name: &str) -> (predicate: Result<Predicate, HtmlError>)
        ensures
            match HtmlTag::named(lowercase_of(name@)) {
                Some(tag) => predicate == Ok::<Predicate, HtmlError>(Predicate::Tag(tag)),
                None => predicate == Err::<Predicate, HtmlError>(HtmlError::InvalidTag),
            },
    {
        match HtmlTag::from_str(name) {
            Ok(tag) => Ok(Predicate::Tag(tag)),
            Err(error) => Err(error),
        }
    }

    /// The predicate for the elements that carry the attribute that `name`
    /// names. A name that is no supported attribute is refused here.
    pub fn has_attribute(name: &str) -> (predicate: Result<Predicate, HtmlError>)
        ensures
            match HtmlAttribute::named(lowercase_of(name@)) {
                Some(attribute) => predicate == Ok::<Predicate, HtmlError>(
                    Predicate::HasAttribute(attribute),
                ),
                None => predicate == Err::<Predicate, HtmlError>(HtmlError::InvalidAttribute),
            },
    {
        match HtmlAttribute::from_str(name) {
            Ok(attribute) => Ok(Predicate::HasAttribute(attribute)),
            Err(error) => Err(error),
        }
    }

    pub fn and(self, other: Predicate) -> (both: Predicate)
        ensures
            both == Predicate::And(Box::new(self), Box::new(other)),
    {
        Predicate::And(Box::new(self), Box::new(other))
    }

    pub fn or(self, other: Predicate) -> (either: Predicate)
        ensures
            either == Predicate::Or(Box::new(self), Box::new(other)),
    {
        Predicate::Or(Box::new(self), Box::new(other))
    }

    /// Tests the predicate on a node, names taken letter for letter.
    pub fn matches_exact(&self, node: &Node) -> (matched: bool)
        ensures
            matched == self.holds(node@),
        decreases self,
    {
        match self {
            Predicate::Tag(tag) => node.is_tag_exact(*tag),
            Predicate::HasAttribute(attribute) => node.attr_exact(*attribute).is_some(),
            Predicate::And(left, right) => left.matches_exact(node) && right.matches_exact(node),
            Predicate::Or(left, right) => left.matches_exact(node) || right.matches_exact(node),
        }
    }

    /// Tests the predicate on a node, whatever the case of the letters in
    /// the node's names.
    pub fn matches(&self, node: &Node) -> (matched: bool)
        ensures
            matched == self.holds(node@.lowered()),
    {
        let lowered = node.lowered();
        self.matches_exact(&lowered)
    }
}

impl Attribute {
    /// A copy of the attribute with its name in lowercase.
    pub fn lowered(&self) -> (copy: Attribute)
        ensures
            copy@ == self@.lowered(),
    {
        Attribute { name: to_lowercase(self.name.as_str()), value: self.value.clone() }
    }
}

impl Node {
    /// A copy of the node with the names of the element and of its
    /// attributes in lowercase.
    pub fn lowered(&self) -> (copy: Node)
        ensures
            copy@ == self@.lowered(),
    {
        match self {
            Node::Element { name, attributes } => {
                let mut copies: Vec<Attribute> = Vec::new();
                let mut i: usize = 0;
                while i < attributes.len()
                    invariant
                        i <= attributes.len(),
                        copies@.len() == i,
                        forall|j: int| 0 <= j < i ==> (#[trigger] copies@[j])@ == attributes@[j]@.lowered(),
                    decreases attributes.len() - i,
                {
                    copies.push(attributes[i].lowered());
                    i += 1;
                }
                let copy = Node::Element { name: to_lowercase(name.as_str()), attributes: copies };
                proof {
                    assert(copy@->attributes =~= self@.lowered()->attributes);
                }
                copy
            },
            Node::Text(text) => Node::Text(text.clone()),
            Node::Comment(text) => Node::Comment(text.clone()),
        }
    }

    /// Whether the node is an element of the given name, letter for letter.
    pub fn is_tag_exact(&self, tag: HtmlTag) -> (named: bool)
        ensures
            named == self@.is_tag(tag),
    {
        match self {
            Node::Element { name, attributes: _ } => same_text(name.as_str(), tag.as_str()),
            _ => false,
        }
    }

    /// Whether the node is an element of the given name, whatever the case
    /// of its letters.
    pub fn is_tag(&self, tag: HtmlTag) -> (named: bool)
        ensures
            named == self@.lowered().is_tag(tag),
    {
        self.lowered().is_tag_exact(tag)
    }

    /// The place among the node's attributes of the first that has the name
    /// of `attribute`, letter for letter.
    pub fn attr_position_exact(&self, attribute: HtmlAttribute) -> (place: Option<usize>)
        ensures
            match self@.attr_position(attribute) {
                Some(found) => place is Some && place.unwrap() == found && 0 <= found
                    < self@->attributes.len(),
                None => place is None,
            },
    {
        match self {
            Node::Element { name: _, attributes } => {
                let ghost views = self@->attributes;
                let mut i: usize = 0;
                while i < attributes.len()
                    invariant
                        i <= attributes.len(),
                        views == attributes@.map_values(|attribute: Attribute| attribute@),
                        views == self@->attributes,
                        self@.attr_position(attribute) == first_position(views, attribute),
                        forall|j: int| 0 <= j < i ==> (#[trigger] views[j]).name != attribute.name(),
                    decreases attributes.len() - i,
                {
                    proof {
                        assert(views[i as int] == attributes@[i as int]@);
                    }
                    if same_text(attributes[i].name.as_str(), attribute.as_str()) {
                        proof {
                            lemma_first_position(views, attribute, i as int);
                        }
                        return Some(i);
                    }
                    i += 1;
                }
                proof {
                    lemma_first_position(views, attribute, i as int);
                }
                None
            },
            _ => None,
        }
    }

    /// The value that the node gives the attribute, if it gives one, the
    /// attributes' names taken letter for letter.
    pub fn attr_exact(&self, attribute: HtmlAttribute) -> (value: Option<&str>)
        ensures
            match self@.attr(attribute) {
                Some(found) => value is Some && value.unwrap()@ == found,
                None => value is None,
            },
    {
        match self {
            Node::Element { name: _, attributes } => match self.attr_position_exact(attribute) {
                Some(place) => {
                    proof {
                        assert(self@.attr_position(attribute) == Some(place as int));
                        assert(self@->attributes[place as int] == attributes@[place as int]@);
                    }
                    Some(attributes[place].value.as_str())
                },
                None => None,
            },
            _ => None,
        }
    }

    /// The value that the node gives the attribute, if it gives one,
    /// whatever the case of the letters in the attributes' names.
    pub fn attr(&self, attribute: HtmlAttribute) -> (value: Option<&str>)
        ensures
            match self@.lowered().attr(attribute) {
                Some(found) => value is Some && value.unwrap()@ == found,
                None => value is None,
            },
    {
        match self {
            Node::Element { name: _, attributes } => {
                let lowered = self.lowered();
                match lowered.attr_position_exact(attribute) {
                    Some(place) => {
                        proof {
                            assert(self@->attributes[place as int] == attributes@[place as int]@);
                        }
                        Some(attributes[place].value.as_str())
                    },
                    None => None,
                }
            },
            _ => None,
        }
    }
}

/// The positions, in ascending order, of the nodes that the predicate holds
/// of.
pub open spec fn selected(nodes: Seq<NodeView>, predicate: Predicate) -> Seq<int>
    decreases nodes.len(),
{
    if nodes.len() == 0 {
        Seq::empty()
    } else {
        let before = selected(nodes.drop_last(), predicate);
        if predicate.holds(nodes.last()) {
            before.push(nodes.len() - 1)
        } else {
            before
        }
    }
}

/// The link that a node yields under a selection: where the predicate holds
/// of the node and the node gives the attribute a value, the canonical form of
/// that value; nothing otherwise.
pub open spec fn link_of(node: NodeView, predicate: Predicate, attribute: HtmlAttribute) -> Option<
    Seq<char>,
> {
    if predicate.holds(node) {
        match node.attr(attribute) {
            Some(value) => Some(normalized(value)),
            None => None,
        }
    } else {
        None
    }
}

/// `link_of` as a function of the node alone.
pub open spec fn link_taker(predicate: Predicate, attribute: HtmlAttribute) -> spec_fn(
    NodeView,
) -> Option<Seq<char>> {
    |node: NodeView| link_of(node, predicate, attribute)
}

/// The links of a document: the link of every node that yields one, in
/// document order.
pub open spec fn links_of(
    nodes: Seq<NodeView>,
    predicate: Predicate,
    attribute: HtmlAttribute,
) -> Seq<Seq<char>> {
    nodes.filter_map(link_taker(predicate, attribute))
}

/// The positions, in ascending order, of the nodes that yield a link.
pub open spec fn carriers(
    nodes: Seq<NodeView>,
    predicate: Predicate,
    attribute: HtmlAttribute,
) -> Seq<int>
    decreases nodes.len(),
{
    if nodes.len() == 0 {
        Seq::empty()
    } else {
        let before = carriers(nodes.drop_last(), predicate, attribute);
        if link_of(nodes.last(), predicate, attribute) is Some {
            before.push(nodes.len() - 1)
        } else {
            before
        }
    }
}

/// The link of the node at a position, as the walk over the selected
/// positions reads it.
pub open spec fn link_at(nodes: Seq<NodeView>, attribute: HtmlAttribute) -> spec_fn(int) -> Option<
    Seq<char>,
> {
    |position: int|
        match nodes[position].attr(attribute) {
            Some(value) => Some(normalized(value)),
            None => None,
        }
}

/// The tree that the tree builder makes of a text, as the sequence of its
/// nodes in document order. Building a tree from markup of any shape, with
/// all the repairs that this takes, is the builder's work and is not restated.
pub uninterp spec fn parsed_nodes(text: Seq<char>) -> Seq<NodeView>;

/// Calls `select::document::Document::from` on the text and copies the nodes
/// that it lays out, in their order, with each element's local name and its
/// attributes' local names and values. The result carries the name
/// `parsed_nodes` of the text. Only a text that is `buildable` is taken: on
/// a longer one the builder stops the program where a buffer outgrows 32
/// bits, and on one with more tags the nesting can grow deeper than the stack
/// bears.
#[verifier::external_body]
pub(crate) fn parse(text: &str) -> (document: Document)
    requires
        buildable(encode_utf8(text@)),
    ensures
        document@ == parsed_nodes(text@),
{
    let parsed = select::document::Document::from(text);
    let nodes = parsed.nodes.into_iter().map(|raw| match raw.data {
        Data::Text(text) => Node::Text(text.to_string()),
        Data::Comment(text) => Node::Comment(text.to_string()),
        Data::Element(name, attributes) => Node::Element {
            name: name.local.to_string(),
            attributes: attributes.into_iter().map(|(name, value)| Attribute {
                name: name.local.to_string(),
                value: value.to_string(),
            }).collect(),
        },
    }).collect();
    Document { nodes }
}

/// The walk of `find_exact` keeps to the document: every position it gives
/// lies in the document and the predicate holds of the node there, the
/// positions ascend strictly, and no node that the predicate holds of is left
/// out. This holds of every sequence of nodes, and so of a document with its
/// names in lowercase, which `find` walks.
pub proof fn lemma_selected_in_document_order(nodes: Seq<NodeView>, predicate: Predicate)
    ensures
        forall|k: int|
            0 <= k < selected(nodes, predicate).len() ==> {
                &&& 0 <= #[trigger] selected(nodes, predicate)[k] < nodes.len()
                &&& predicate.holds(nodes[selected(nodes, predicate)[k]])
            },
        forall|j: int, k: int|
            0 <= j < k < selected(nodes, predicate).len() ==> #[trigger] selected(
                nodes,
                predicate,
            )[j] < #[trigger] selected(nodes, predicate)[k],
        forall|position: int|
            0 <= position < nodes.len() && predicate.holds(#[trigger] nodes[position])
                ==> selected(nodes, predicate).contains(position),
    decreases nodes.len(),
{
    if nodes.len() > 0 {
        let front = nodes.drop_last();
        let before = selected(front, predicate);
        lemma_selected_in_document_order(front, predicate);
        assert forall|k: int| 0 <= k < before.len() implies nodes[before[k]] == front[before[k]] by {}
        assert forall|position: int|
            0 <= position < nodes.len() && predicate.holds(
                #[trigger] nodes[position],
            ) implies selected(nodes, predicate).contains(position) by {
            if position < nodes.len() - 1 {
                assert(front[position] == nodes[position]);
                let k = choose|k: int| 0 <= k < before.len() && before[k] == position;
                assert(selected(nodes, predicate)[k] == position);
            } else {
                assert(selected(nodes, predicate).last() == position);
            }
        }
    }
}

/// The sequences of characters that a vector of strings holds.
pub open spec fn texts(strings: Seq<String>) -> Seq<Seq<char>> {
    strings.map_values(|string: String| string@)
}

/// The positions that a vector of indices holds.
pub open spec fn positions(indices: Seq<usize>) -> Seq<int> {
    indices.map_values(|index: usize| index as int)
}

proof fn lemma_same_picks<A, B>(items: Seq<A>, first: spec_fn(A) -> Option<B>, second: spec_fn(A) -> Option<B>)
    requires
        forall|k: int| 0 <= k < items.len() ==> first(#[trigger] items[k]) == second(items[k]),
    ensures
        items.filter_map(first) == items.filter_map(second),
    decreases items.len(),
{
    if items.len() > 0 {
        let front = items.drop_last();
        assert forall|k: int| 0 <= k < front.len() implies first(#[trigger] front[k]) == second(
            front[k],
        ) by {
            assert(front[k] == items[k]);
        }
        lemma_same_picks(front, first, second);
        assert(first(items.last()) == second(items[items.len() - 1]));
    }
}

/// Reading the attribute at the selected positions, one after the other,
/// gives the links of the document.
pub proof fn lemma_selection_yields_links(
    nodes: Seq<NodeView>,
    predicate: Predicate,
    attribute: HtmlAttribute,
)
    ensures
        selected(nodes, predicate).filter_map(link_at(nodes, attribute)) == links_of(
            nodes,
            predicate,
            attribute,
        ),
    decreases nodes.len(),
{
    if nodes.len() > 0 {
        let front = nodes.drop_last();
        let before = selected(front, predicate);
        lemma_selection_yields_links(front, predicate, attribute);
        lemma_selected_in_document_order(front, predicate);
        assert forall|k: int| 0 <= k < before.len() implies link_at(nodes, attribute)(
            #[trigger] before[k],
        ) == link_at(front, attribute)(before[k]) by {
            assert(front[before[k]] == nodes[before[k]]);
        }
        lemma_same_picks(before, link_at(nodes, attribute), link_at(front, attribute));
        if predicate.holds(nodes.last()) {
            assert(selected(nodes, predicate).drop_last() == before);
            assert(selected(nodes, predicate).last() == nodes.len() - 1);
        }
    }
}

/// The links come in document order, for every sequence of nodes and so for
/// a document with its names in lowercase: the link at each place of the
/// result is the canonical form of the attribute's value at the node whose
/// position stands at the same place among the carriers, the carriers are
/// positions of the document that ascend strictly, the predicate holds of
/// each and each gives the attribute a value, and every such node is among
/// them.
pub proof fn lemma_links_in_document_order(
    nodes: Seq<NodeView>,
    predicate: Predicate,
    attribute: HtmlAttribute,
)
    ensures
        links_of(nodes, predicate, attribute).len() == carriers(nodes, predicate, attribute).len(),
        forall|k: int|
            0 <= k < carriers(nodes, predicate, attribute).len() ==> {
                let position = #[trigger] carriers(nodes, predicate, attribute)[k];
                &&& 0 <= position < nodes.len()
                &&& predicate.holds(nodes[position])
                &&& nodes[position].attr(attribute) is Some
                &&& links_of(nodes, predicate, attribute)[k] == normalized(
                    nodes[position].attr(attribute).unwrap(),
                )
            },
        forall|j: int, k: int|
            0 <= j < k < carriers(nodes, predicate, attribute).len() ==> #[trigger] carriers(
                nodes,
                predicate,
                attribute,
            )[j] < #[trigger] carriers(nodes, predicate, attribute)[k],
        forall|position: int|
            0 <= position < nodes.len() && predicate.holds(#[trigger] nodes[position])
                && nodes[position].attr(attribute) is Some ==> carriers(
                nodes,
                predicate,
                attribute,
            ).contains(position),
    decreases nodes.len(),
{
    if nodes.len() > 0 {
        let front = nodes.drop_last();
        let before = carriers(front, predicate, attribute);
        let here = carriers(nodes, predicate, attribute);
        lemma_links_in_document_order(front, predicate, attribute);
        assert forall|k: int| 0 <= k < before.len() implies nodes[before[k]] == front[before[k]] by {}
        assert forall|position: int|
            0 <= position < nodes.len() && predicate.holds(#[trigger] nodes[position])
                && nodes[position].attr(attribute) is Some implies here.contains(position) by {
            if position < nodes.len() - 1 {
                assert(front[position] == nodes[position]);
                let k = choose|k: int| 0 <= k < before.len() && before[k] == position;
                assert(here[k] == position);
            } else {
                assert(here.last() == position);
            }
        }
    }
}

/// A node that lacks the attribute adds nothing to the links and takes
/// nothing from them, whether the predicate holds of it or not.
pub proof fn lemma_missing_attribute_is_skipped(
    nodes: Seq<NodeView>,
    node: NodeView,
    predicate: Predicate,
    attribute: HtmlAttribute,
)
    requires
        node.attr(attribute) is None,
    ensures
        links_of(nodes.push(node), predicate, attribute) == links_of(nodes, predicate, attribute),
{
    assert(nodes.push(node).drop_last() == nodes);
}

/// A document in which the predicate holds of no node has no links.
pub proof fn lemma_nothing_selected_gives_no_links(
    nodes: Seq<NodeView>,
    predicate: Predicate,
    attribute: HtmlAttribute,
)
    requires
        forall|position: int| 0 <= position < nodes.len() ==> !predicate.holds(#[trigger] nodes[position]),
    ensures
        links_of(nodes, predicate, attribute) == Seq::<Seq<char>>::empty(),
    decreases nodes.len(),
{
    if nodes.len() > 0 {
        let front = nodes.drop_last();
        assert forall|position: int| 0 <= position < front.len() implies !predicate.holds(
            #[trigger] front[position],
        ) by {
            assert(front[position] == nodes[position]);
        }
        lemma_nothing_selected_gives_no_links(front, predicate, attribute);
        assert(!predicate.holds(nodes[nodes.len() - 1]));
    }
}

impl Document {
    /// A copy of the document with all names in lowercase.
    pub fn lowered(&self) -> (copy: Document)
        ensures
            copy@ == lowered_nodes(self@),
    {
        let mut copies: Vec<Node> = Vec::new();
        let mut i: usize = 0;
        while i < self.nodes.len()
            invariant
                i <= self.nodes.len(),
                copies@.len() == i,
                forall|j: int| 0 <= j < i ==> (#[trigger] copies@[j])@ == self.nodes@[j]@.lowered(),
            decreases self.nodes.len() - i,
        {
            copies.push(self.nodes[i].lowered());
            i += 1;
        }
        let copy = Document { nodes: copies };
        proof {
            assert(copy@ =~= lowered_nodes(self@));
        }
        copy
    }

    /// Walks the document in document order and gives the position of every
    /// node that the predicate holds of, names taken letter for letter.
    pub fn find_exact(&self, predicate: &Predicate) -> (found: Vec<usize>)
        ensures
            positions(found@) == selected(self@, *predicate),
    {
        let mut found: Vec<usize> = Vec::new();
        let mut i: usize = 0;
        while i < self.nodes.len()
            invariant
                i <= self.nodes.len(),
                positions(found@) == selected(self@.take(i as int), *predicate),
            decreases self.nodes.len() - i,
        {
            proof {
                assert(self@.take(i + 1).drop_last() == self@.take(i as int));
                assert(self@.take(i + 1).last() == self.nodes@[i as int]@);
            }
            if predicate.matches_exact(&self.nodes[i]) {
                let ghost before = found@;
                found.push(i);
                proof {
                    assert(positions(found@) == positions(before).push(i as int));
                }
            }
            i += 1;
        }
        proof {
            assert(self@.take(i as int) == self@);
        }
        found
    }

    /// Walks the document in document order and gives the position of every
    /// node that the predicate holds of, whatever the case of the letters in
    /// the document's names.
    pub fn find(&self, predicate: &Predicate) -> (found: Vec<usize>)
        ensures
            positions(found@) == selected(lowered_nodes(self@), *predicate),
    {
        self.lowered().find_exact(predicate)
    }

    /// Extracts the links of the document, names taken letter for letter:
    /// from every node that the predicate holds of, in document order, the
    /// value of the attribute in its canonical form. A node without the
    /// attribute yields nothing, and a document without such nodes an empty
    /// vector.
    pub fn links_exact(&self, predicate: &Predicate, attribute: HtmlAttribute) -> (links: Vec<
        String,
    >)
        ensures
            texts(links@) == links_of(self@, *predicate, attribute),
    {
        let found = self.find_exact(predicate);
        let ghost chosen = positions(found@);
        let ghost pick = link_at(self@, attribute);
        let mut links: Vec<String> = Vec::new();
        let mut k: usize = 0;
        proof {
            lemma_selected_in_document_order(self@, *predicate);
            assert(texts(links@) == chosen.take(0).filter_map(pick));
        }
        while k < found.len()
            invariant
                k <= found.len(),
                chosen == positions(found@),
                chosen == selected(self@, *predicate),
                pick == link_at(self@, attribute),
                forall|j: int| 0 <= j < chosen.len() ==> 0 <= #[trigger] chosen[j] < self@.len(),
                texts(links@) == chosen.take(k as int).filter_map(pick),
            decreases found.len() - k,
        {
            let index = found[k];
            proof {
                assert(chosen[k as int] == index);
                assert(chosen.take(k + 1).drop_last() == chosen.take(k as int));
                assert(chosen.take(k + 1).last() == index);
                assert(self@[index as int] == self.nodes@[index as int]@);
            }
            match self.nodes[index].attr_exact(attribute) {
                Some(value) => {
                    let fixed = Parser::<Utils>::fix_link(value);
                    let ghost before = links@;
                    links.push(fixed.to_owned());
                    proof {
                        assert(texts(links@) == texts(before) + seq![normalized(value@)]);
                    }
                },
                None => {},
            }
            k += 1;
        }
        proof {
            assert(chosen.take(k as int) == chosen);
            lemma_selection_yields_links(self@, *predicate, attribute);
        }
        links
    }

    /// Extracts the links of the document, whatever the case of the letters
    /// in the document's names: the links of the document with all names in
    /// lowercase.
    pub fn links(&self, predicate: &Predicate, attribute: HtmlAttribute) -> (links: Vec<String>)
        ensures
            texts(links@) == links_of(lowered_nodes(self@), *predicate, attribute),
    {
        self.lowered().links_exact(predicate, attribute)
    }
}

} // verus!
