//! The document layer: the element and attribute names a selector may ask
//! for, the failures of this layer, and the source that owns a document's
//! bytes.

use vstd::prelude::*;

use crate::document::{buildable, fits, parse, parsed_nodes, Document, Predicate};
use crate::error::{displayed_as, Cause};
use crate::parser::ParserError;
use crate::text::{from_utf8, lowercase_of, same_text, to_lowercase, utf8_failure};
use bytes::Bytes;
use std::str::{FromStr, Utf8Error};
use vstd::slice::slice_to_vec;
use vstd::std_specs::convert::FromSpecImpl;
use vstd::utf8::{decode_utf8, encode_utf8, valid_utf8};

verus! {

/// `bytes::Bytes`, the buffer that a source keeps its document in.
#[verifier::external_type_specification]
#[verifier::external_body]
pub struct ExBytes(bytes::Bytes);

/// The bytes that a buffer holds, in their order.
pub uninterp spec fn bytes_of(buffer: Bytes) -> Seq<u8>;

/// Calls `Bytes::from` on a `String`: the buffer takes over the string's
/// bytes, which are the UTF-8 encoding of its characters.
#[verifier::external_body]
pub(crate) fn bytes_from_string(text: String) -> (buffer: Bytes)
    ensures
        bytes_of(buffer) == encode_utf8(text@),
{
    Bytes::from(text)
}

/// Calls `Bytes::from` on a `Vec<u8>`: the buffer takes over the vector's
/// bytes.
#[verifier::external_body]
pub(crate) fn bytes_from_vec(bytes: Vec<u8>) -> (buffer: Bytes)
    ensures
        bytes_of(buffer) == bytes@,
{
    Bytes::from(bytes)
}

/// Calls `Bytes::as_ref`: the slice shows the bytes that the buffer holds.
#[verifier::external_body]
pub(crate) fn bytes_as_slice(buffer: &Bytes) -> (slice: &[u8])
    ensures
        slice@ == bytes_of(*buffer),
{
    buffer.as_ref()
}

/// A source of one document: it owns the document's bytes and shows them as
/// bytes, as text and as a tree.
pub trait HtmlDocument {
    /// The bytes that the source owns.
    spec fn content(&self) -> Seq<u8>;

    /// Whether `outcome` is a way for `text` to end on this source.
    spec fn decodes(&self, outcome: Result<String, HtmlError>) -> bool;

    /// Whether `outcome` is a way for `document` to end on this source.
    spec fn builds(&self, outcome: Result<Document, HtmlError>) -> bool;

    /// A buffer with the bytes of the source.
    fn bytes(&self) -> (buffer: Bytes)
        ensures
            bytes_of(buffer) == self.content(),
    ;

    /// The tree of the document.
    fn document(&self) -> (outcome: Result<Document, HtmlError>)
        ensures
            self.builds(outcome),
    ;

    /// The text of the document.
    fn text(&self) -> (outcome: Result<String, HtmlError>)
        ensures
            self.decodes(outcome),
    ;
}

/// Extracts links from a document.
pub trait HtmlParser {
    /// The links that the nodes matching `predicate` carry in `attribute`, in
    /// document order and in canonical form.
    fn links(&self, predicate: &Predicate, attribute: HtmlAttribute) -> Result<
        Vec<String>,
        ParserError<HtmlError>,
    >;
}

/// The attributes whose value can be extracted.
#[derive(Debug, Clone, Copy, PartialEq, Eq, Structural)]
pub enum HtmlAttribute {
    Href,
}

/// A failure of the document layer.
#[derive(Debug)]
#[allow(inconsistent_fields)]
pub enum HtmlError {
    /// The source of the bytes failed.
    Internal { source: std::io::Error },
    /// A name that is no supported attribute was asked for.
    InvalidAttribute,
    /// A name that is no supported element was asked for.
    InvalidTag,
    NotFound,
    /// The document is longer, or holds more tags, than is built into a tree.
    TooLarge,
    /// The bytes are no valid UTF-8.
    Utf8 { source: Utf8Error },
}

/// The elements that a selector can name.
#[derive(Debug, Clone, Copy, PartialEq, Eq, Structural)]
pub enum HtmlTag {
    A,
    Area,
    Div,
    Link,
    Span,
}

/// A document held in memory.
pub struct Html {
    html: Bytes,
}

impl View for Html {
    type V = Seq<u8>;

    closed spec fn view(&self) -> Seq<u8> {
        bytes_of(self.html)
    }
}

impl Html {
    /// A source that owns the bytes of `html`.
    pub fn new(html: String) -> (source: Html)
        ensures
            source@ == encode_utf8(html@),
    {
        Self { html: bytes_from_string(html) }
    }

    /// A source that owns `bytes`, which need not be valid UTF-8.
    pub fn from_bytes(bytes: Vec<u8>) -> (source: Html)
        ensures
            source@ == bytes@,
    {
        Self { html: bytes_from_vec(bytes) }
    }
}

impl HtmlDocument for Html {
    open spec fn content(&self) -> Seq<u8> {
        self@
    }

    /// The text is had exactly where the bytes are valid UTF-8, and is then
    /// what they decode to; otherwise the failure is the decoder's own for
    /// these bytes.
    open spec fn decodes(&self, outcome: Result<String, HtmlError>) -> bool {
        match outcome {
            Ok(text) => valid_utf8(self@) && text@ == decode_utf8(self@),
            Err(error) => !valid_utf8(self@) && error == (HtmlError::Utf8 {
                source: utf8_failure(self@),
            }),
        }
    }

    /// The tree is had exactly where the bytes are valid UTF-8 and within
    /// what is built into a tree, and is then the tree of the text that they
    /// decode to. Bytes that are no valid UTF-8 fail with the decoder's own
    /// failure for them; valid bytes beyond the limits fail as too large.
    open spec fn builds(&self, outcome: Result<Document, HtmlError>) -> bool {
        match outcome {
            Ok(document) => valid_utf8(self@) && buildable(self@) && document@ == parsed_nodes(
                decode_utf8(self@),
            ),
            Err(error) => if valid_utf8(self@) {
                !buildable(self@) && error == HtmlError::TooLarge
            } else {
                error == (HtmlError::Utf8 { source: utf8_failure(self@) })
            },
        }
    }

    fn bytes(&self) -> (buffer: Bytes) {
        bytes_from_vec(slice_to_vec(bytes_as_slice(&self.html)))
    }

    fn document(&self) -> (outcome: Result<Document, HtmlError>) {
        let bytes = bytes_as_slice(&self.html);
        match from_utf8(bytes) {
            Ok(text) => {
                proof {
                    vstd::utf8::encode_utf8_decode_utf8(text@);
                }
                if fits(bytes) {
                    Ok(parse(text))
                } else {
                    Err(HtmlError::TooLarge)
                }
            },
            Err(err) => Err(HtmlError::from(err)),
        }
    }

    fn text(&self) -> (outcome: Result<String, HtmlError>) {
        match from_utf8(bytes_as_slice(&self.html)) {
            Ok(text) => {
                proof {
                    vstd::utf8::encode_utf8_decode_utf8(text@);
                }
                Ok(text.to_owned())
            },
            Err(err) => Err(HtmlError::from(err)),
        }
    }
}

impl HtmlError {
    /// Whether the failure belongs to this layer itself, and wraps no failure
    /// of the source or of the decoding.
    pub open spec fn is_local(self) -> bool {
        self is InvalidAttribute || self is InvalidTag || self is NotFound || self is TooLarge
    }

    /// The text that describes a failure of this layer itself.
    pub open spec fn local_text(self) -> Seq<char>
        recommends
            self.is_local(),
    {
        match self {
            HtmlError::InvalidAttribute => "invalid attribute"@,
            HtmlError::InvalidTag => "invalid tag"@,
            HtmlError::TooLarge => "document too large"@,
            _ => "not found"@,
        }
    }

    /// The failure that this one wraps.
    pub open spec fn cause(self) -> Option<Cause<'static>> {
        match self {
            HtmlError::Internal { source } => Some(Cause::Io(&source)),
            HtmlError::Utf8 { source } => Some(Cause::Utf8(&source)),
            _ => None,
        }
    }

    /// The failure that this one wraps, where it wraps one.
    pub fn source(&self) -> (cause: Option<Cause<'_>>)
        ensures
            cause == self.cause(),
    {
        match self {
            HtmlError::Internal { source } => Some(Cause::Io(source)),
            HtmlError::Utf8 { source } => Some(Cause::Utf8(source)),
            _ => None,
        }
    }

    /// Whether `text` is a text that the failure is shown as: its own
    /// description for a failure of this layer, a text that the wrapped
    /// failure is displayed as otherwise.
    pub open spec fn shown_as(self, text: String) -> bool {
        match self {
            HtmlError::Internal { source } => displayed_as(Cause::Io(&source), text),
            HtmlError::Utf8 { source } => displayed_as(Cause::Utf8(&source), text),
            _ => text@ == self.local_text(),
        }
    }

    /// The text shown for the failure.
    pub fn to_string(&self) -> (text: String)
        ensures
            self.shown_as(text),
    {
        match self {
            HtmlError::Internal { source } => source.to_string(),
            HtmlError::InvalidAttribute => "invalid attribute".to_owned(),
            HtmlError::InvalidTag => "invalid tag".to_owned(),
            HtmlError::NotFound => "not found".to_owned(),
            HtmlError::TooLarge => "document too large".to_owned(),
            HtmlError::Utf8 { source } => source.to_string(),
        }
    }
}

impl Default for HtmlAttribute {
    /// The attribute that holds a link's target.
    fn default() -> (attribute: Self)
        ensures
            attribute == HtmlAttribute::Href,
    {
        HtmlAttribute::Href
    }
}

impl Default for HtmlTag {
    /// The anchor element.
    fn default() -> (tag: Self)
        ensures
            tag == HtmlTag::A,
    {
        HtmlTag::A
    }
}

impl HtmlAttribute {
    /// The attribute's name as documents write it, in lowercase.
    pub open spec fn literal(self) -> &'static str {
        match self {
            HtmlAttribute::Href => "href",
        }
    }

    /// The characters of the attribute's name.
    pub open spec fn name(self) -> Seq<char> {
        self.literal()@
    }

    /// The attribute that a lowercase name stands for.
    pub open spec fn named(lowered: Seq<char>) -> Option<HtmlAttribute> {
        if lowered == "href"@ {
            Some(HtmlAttribute::Href)
        } else {
            None
        }
    }

    pub fn as_str(&self) -> (name: &'static str)
        ensures
            name == self.literal(),
    {
        match self {
            HtmlAttribute::Href => "href",
        }
    }

    pub fn to_string(&self) -> (text: String)
        ensures
            text@ == self.name(),
    {
        self.as_str().to_owned()
    }

    /// The attribute that `lowered` names, taken letter for letter.
    pub fn from_lowercase(lowered: &str) -> (attribute: Result<HtmlAttribute, HtmlError>)
        ensures
            match Self::named(lowered@) {
                Some(known) => attribute == Ok::<HtmlAttribute, HtmlError>(known),
                None => attribute == Err::<HtmlAttribute, HtmlError>(HtmlError::InvalidAttribute),
            },
    {
        if same_text(lowered, "href") {
            Ok(HtmlAttribute::Href)
        } else {
            Err(HtmlError::InvalidAttribute)
        }
    }

    /// The attribute that `s` names, whatever the case of its letters.
    pub fn from_str(s: &str) -> (attribute: Result<HtmlAttribute, HtmlError>)
        ensures
            match Self::named(lowercase_of(s@)) {
                Some(known) => attribute == Ok::<HtmlAttribute, HtmlError>(known),
                None => attribute == Err::<HtmlAttribute, HtmlError>(HtmlError::InvalidAttribute),
            },
    {
        let lowered = to_lowercase(s);
        Self::from_lowercase(lowered.as_str())
    }
}

impl HtmlTag {
    /// The element's name as documents write it, in lowercase.
    pub open spec fn literal(self) -> &'static str {
        match self {
            HtmlTag::A => "a",
            HtmlTag::Area => "area",
            HtmlTag::Div => "div",
            HtmlTag::Link => "link",
            HtmlTag::Span => "span",
        }
    }

    /// The characters of the element's name.
    pub open spec fn name(self) -> Seq<char> {
        self.literal()@
    }

    /// The element that a lowercase name stands for.
    pub open spec fn named(lowered: Seq<char>) -> Option<HtmlTag> {
        if lowered == "a"@ {
            Some(HtmlTag::A)
        } else if lowered == "area"@ {
            Some(HtmlTag::Area)
        } else if lowered == "div"@ {
            Some(HtmlTag::Div)
        } else if lowered == "link"@ {
            Some(HtmlTag::Link)
        } else if lowered == "span"@ {
            Some(HtmlTag::Span)
        } else {
            None
        }
    }

    pub fn as_str(&self) -> (name: &'static str)
        ensures
            name == self.literal(),
    {
        match self {
            HtmlTag::A => "a",
            HtmlTag::Area => "area",
            HtmlTag::Div => "div",
            HtmlTag::Link => "link",
            HtmlTag::Span => "span",
        }
    }

    pub fn to_string(&self) -> (text: String)
        ensures
            text@ == self.name(),
    {
        self.as_str().to_owned()
    }

    /// The element that `lowered` names, taken letter for letter.
    pub fn from_lowercase(lowered: &str) -> (tag: Result<HtmlTag, HtmlError>)
        ensures
            match Self::named(lowered@) {
                Some(known) => tag == Ok::<HtmlTag, HtmlError>(known),
                None => tag == Err::<HtmlTag, HtmlError>(HtmlError::InvalidTag),
            },
    {
        if same_text(lowered, "a") {
            Ok(HtmlTag::A)
        } else if same_text(lowered, "area") {
            Ok(HtmlTag::Area)
        } else if same_text(lowered, "div") {
            Ok(HtmlTag::Div)
        } else if same_text(lowered, "link") {
            Ok(HtmlTag::Link)
        } else if same_text(lowered, "span") {
            Ok(HtmlTag::Span)
        } else {
            Err(HtmlError::InvalidTag)
        }
    }

    /// The element that `s` names, whatever the case of its letters.
    pub fn from_str(s: &str) -> (tag: Result<HtmlTag, HtmlError>)
        ensures
            match Self::named(lowercase_of(s@)) {
                Some(known) => tag == Ok::<HtmlTag, HtmlError>(known),
                None => tag == Err::<HtmlTag, HtmlError>(HtmlError::InvalidTag),
            },
    {
        let lowered = to_lowercase(s);
        Self::from_lowercase(lowered.as_str())
    }
}

impl FromStr for HtmlAttribute {
    type Err = HtmlError;

    /// As `HtmlAttribute::from_str`, for `str::parse`.
    fn from_str(s: &str) -> (attribute: Result<Self, Self::Err>)
        ensures
            match HtmlAttribute::named(lowercase_of(s@)) {
                Some(known) => attribute == Ok::<HtmlAttribute, HtmlError>(known),
                None => attribute == Err::<HtmlAttribute, HtmlError>(HtmlError::InvalidAttribute),
            },
    {
        HtmlAttribute::from_str(s)
    }
}

impl FromStr for HtmlTag {
    type Err = HtmlError;

    /// As `HtmlTag::from_str`, for `str::parse`.
    fn from_str(s: &str) -> (tag: Result<Self, Self::Err>)
        ensures
            match HtmlTag::named(lowercase_of(s@)) {
                Some(known) => tag == Ok::<HtmlTag, HtmlError>(known),
                None => tag == Err::<HtmlTag, HtmlError>(HtmlError::InvalidTag),
            },
    {
        HtmlTag::from_str(s)
    }
}

impl<'a> FromSpecImpl<HtmlAttribute> for &'a str {
    open spec fn obeys_from_spec() -> bool {
        true
    }

    open spec fn from_spec(attribute: HtmlAttribute) -> Self {
        attribute.literal()
    }
}

impl<'a> From<HtmlAttribute> for &'a str {
    fn from(attribute: HtmlAttribute) -> (name: Self)
        ensures
            name@ == attribute.name(),
    {
        attribute.as_str()
    }
}

impl<'a> FromSpecImpl<HtmlTag> for &'a str {
    open spec fn obeys_from_spec() -> bool {
        true
    }

    open spec fn from_spec(tag: HtmlTag) -> Self {
        tag.literal()
    }
}

impl<'a> From<HtmlTag> for &'a str {
    fn from(tag: HtmlTag) -> (name: Self)
        ensures
            name@ == tag.name(),
    {
        tag.as_str()
    }
}

/// Every supported name stands for the element or attribute it was taken
/// from, and for no other.
pub proof fn lemma_names_round_trip(tag: HtmlTag, attribute: HtmlAttribute)
    ensures
        HtmlTag::named(tag.name()) == Some(tag),
        HtmlAttribute::named(attribute.name()) == Some(attribute),
{
    reveal_strlit("a");
    reveal_strlit("area");
    reveal_strlit("div");
    reveal_strlit("link");
    reveal_strlit("span");
    reveal_strlit("href");
    assert("a"@.len() == 1 && "div"@.len() == 3);
    assert("area"@[0] == 'a' && "link"@[0] == 'l' && "span"@[0] == 's');
}

impl FromSpecImpl<std::io::Error> for HtmlError {
    open spec fn obeys_from_spec() -> bool {
        true
    }

    open spec fn from_spec(source: std::io::Error) -> Self {
        HtmlError::Internal { source }
    }
}

impl From<std::io::Error> for HtmlError {
    fn from(source: std::io::Error) -> (error: Self)
        ensures
            error == (HtmlError::Internal { source }),
    {
        Self::Internal { source }
    }
}

impl FromSpecImpl<Utf8Error> for HtmlError {
    open spec fn obeys_from_spec() -> bool {
        true
    }

    open spec fn from_spec(source: Utf8Error) -> Self {
        HtmlError::Utf8 { source }
    }
}

impl From<Utf8Error> for HtmlError {
    fn from(source: Utf8Error) -> (error: Self)
        ensures
            error == (HtmlError::Utf8 { source }),
    {
        Self::Utf8 { source }
    }
}

} // verus!
