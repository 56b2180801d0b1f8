//! The extraction pipeline and the errors of its layer.

use vstd::prelude::*;

use crate::document::{
    buildable, links_of, lowered_nodes, parsed_nodes, texts, Document, Predicate,
};
use crate::error::{displayed_after, displayed_as, Cause};
use crate::html::{Html, HtmlAttribute, HtmlDocument, HtmlError, HtmlParser};
use crate::link::normalized;
use crate::text::{strip_prefix, strip_suffix, utf8_failure};
use std::str::Utf8Error;
use vstd::std_specs::convert::FromSpecImpl;
use vstd::string::StringExecFns;
use vstd::utf8::{decode_utf8, valid_utf8};

verus! {

/// A failure of the extraction: a failure `E` of the layer below that is of
/// that layer's own making, or a wrapped failure passed on as it is.
#[derive(Debug)]
#[allow(inconsistent_fields)]
pub enum ParserError<E> {
    Failed(E),
    Internal { source: std::io::Error },
    Utf8 { source: Utf8Error },
}

/// Marks the parser that only offers the helpers of this module.
pub struct Utils;

/// Extracts links from the source `T` that it owns.
pub struct Parser<T> {
    parse: T,
}

impl<T> Parser<T> {
    /// The source that the parser reads.
    pub closed spec fn source(&self) -> T {
        self.parse
    }

    pub fn new(kind: T) -> (parser: Parser<T>)
        ensures
            parser.source() == kind,
    {
        Self { parse: kind }
    }
}

impl<T: HtmlDocument> Parser<T> {
    /// Whether `links` is a way for the extraction to end on this parser's
    /// source: the links of a tree that the source builds, its names taken
    /// whatever the case of their letters, or the failure to build one,
    /// lifted to this layer. Nothing else makes the extraction fail: a node
    /// without the attribute is passed over.
    pub open spec fn extracts(
        &self,
        predicate: Predicate,
        attribute: HtmlAttribute,
        links: Result<Vec<String>, ParserError<HtmlError>>,
    ) -> bool {
        match links {
            Ok(found) => exists|document: Document| #[trigger]
                self.source().builds(Ok(document)) && texts(found@) == links_of(
                    lowered_nodes(document@),
                    predicate,
                    attribute,
                ),
            Err(error) => exists|cause: HtmlError| #[trigger]
                self.source().builds(Err(cause)) && error == ParserError::of_html(cause),
        }
    }
}

impl<T: HtmlDocument> HtmlParser for Parser<T> {
    /// Builds the tree of the source and extracts its links.
    fn links(&self, predicate: &Predicate, attribute: HtmlAttribute) -> (links: Result<
        Vec<String>,
        ParserError<HtmlError>,
    >)
        ensures
            self.extracts(*predicate, attribute, links),
    {
        match self.parse.document() {
            Ok(doc) => {
                let found = doc.links(predicate, attribute);
                assert(self.source().builds(Ok(doc)));
                Ok(found)
            },
            Err(err) => {
                assert(self.source().builds(Err(err)));
                Err(ParserError::from(err))
            },
        }
    }
}

/// On a document held in memory the extraction succeeds exactly where the
/// bytes are valid UTF-8 and within what is built into a tree. It then gives
/// the links of the tree of the text that the bytes decode to. Bytes that are
/// no valid UTF-8 give a decoding failure that wraps the decoder's own failure
/// for them; valid bytes beyond the limits give the failure of the document
/// layer that says so.
pub proof fn lemma_links_of_html(
    parser: Parser<Html>,
    predicate: Predicate,
    attribute: HtmlAttribute,
    links: Result<Vec<String>, ParserError<HtmlError>>,
)
    requires
        parser.extracts(predicate, attribute, links),
    ensures
        links is Ok <==> valid_utf8(parser.source()@) && buildable(parser.source()@),
        links is Ok ==> texts(links->Ok_0@) == links_of(
            lowered_nodes(parsed_nodes(decode_utf8(parser.source()@))),
            predicate,
            attribute,
        ),
        !valid_utf8(parser.source()@) ==> links is Err && links->Err_0 == (ParserError::<
            HtmlError,
        >::Utf8 { source: utf8_failure(parser.source()@) }),
        valid_utf8(parser.source()@) && !buildable(parser.source()@) ==> links is Err
            && links->Err_0 == ParserError::Failed(HtmlError::TooLarge),
{
}

impl FromSpecImpl<Html> for Parser<Html> {
    open spec fn obeys_from_spec() -> bool {
        true
    }

    closed spec fn from_spec(html: Html) -> Self {
        Parser { parse: html }
    }
}

impl From<Html> for Parser<Html> {
    fn from(html: Html) -> (parser: Self)
        ensures
            parser.source() == html,
    {
        Parser::new(html)
    }
}

impl Parser<Utils> {
    /// Brings a link into its canonical form. Every text is taken, and what
    /// comes back depends on the text alone.
    pub fn fix_link(link: &str) -> (fixed: &str)
        ensures
            fixed@ == normalized(link@),
    {
        proof {
            reveal_strlit("https");
            reveal_strlit("http");
            reveal_strlit(":");
            reveal_strlit("//");
            reveal_strlit("www.");
            reveal_strlit("/");
        }
        let link = match strip_prefix(link, "https") {
            Some(rest) => rest,
            None => link,
        };
        let link = match strip_prefix(link, "http") {
            Some(rest) => rest,
            None => link,
        };
        let link = match strip_prefix(link, ":") {
            Some(rest) => rest,
            None => link,
        };
        let link = match strip_prefix(link, "//") {
            Some(rest) => rest,
            None => link,
        };
        let link = match strip_prefix(link, "www.") {
            Some(rest) => rest,
            None => link,
        };
        match strip_suffix(link, "/") {
            Some(rest) => rest,
            None => link,
        }
    }
}

impl ParserError<HtmlError> {
    /// What the text of a failed extraction begins with.
    pub open spec fn failed_mark() -> Seq<char> {
        "failed to parse | "@
    }

    /// The text of a failed extraction, given the text of what failed below.
    pub open spec fn failed_form(cause: Seq<char>) -> Seq<char> {
        Self::failed_mark() + cause
    }

    /// Whether `text` is a text that the failure is shown as:
    /// `failed to parse | `, followed by the description of a failure of the
    /// document layer or by a text that a wrapped failure is displayed as.
    pub open spec fn shown_as(self, text: Seq<char>) -> bool {
        match self {
            ParserError::Failed(HtmlError::Internal { source }) => displayed_after(
                Cause::Io(&source),
                Self::failed_mark(),
                text,
            ),
            ParserError::Failed(HtmlError::Utf8 { source }) => displayed_after(
                Cause::Utf8(&source),
                Self::failed_mark(),
                text,
            ),
            ParserError::Failed(inner) => text == Self::failed_form(inner.local_text()),
            ParserError::Internal { source } => displayed_after(
                Cause::Io(&source),
                Self::failed_mark(),
                text,
            ),
            ParserError::Utf8 { source } => displayed_after(Cause::Utf8(&source), Self::failed_mark(), text),
        }
    }

    /// What becomes of a failure of the document layer: a wrapped failure is
    /// passed on as the same kind of wrapped failure, a failure of the layer
    /// itself is kept whole.
    pub open spec fn of_html(error: HtmlError) -> ParserError<HtmlError> {
        match error {
            HtmlError::Internal { source } => ParserError::Internal { source },
            HtmlError::Utf8 { source } => ParserError::Utf8 { source },
            _ => ParserError::Failed(error),
        }
    }

    pub fn failed_text(cause: &str) -> (text: String)
        ensures
            text@ == Self::failed_form(cause@),
    {
        let mut text = "failed to parse | ".to_owned();
        text.append(cause);
        text
    }

    /// The text shown for the failure.
    pub fn to_string(&self) -> (text: String)
        ensures
            self.shown_as(text@),
    {
        let cause = match self {
            ParserError::Failed(err) => err.to_string(),
            ParserError::Internal { source } => source.to_string(),
            ParserError::Utf8 { source } => source.to_string(),
        };
        let text = Self::failed_text(cause.as_str());
        proof {
            match self {
                ParserError::Failed(HtmlError::Internal { source }) => {
                    assert(displayed_as(Cause::Io(source), cause));
                },
                ParserError::Failed(HtmlError::Utf8 { source }) => {
                    assert(displayed_as(Cause::Utf8(source), cause));
                },
                ParserError::Failed(_) => {},
                ParserError::Internal { source } => {
                    assert(displayed_as(Cause::Io(source), cause));
                },
                ParserError::Utf8 { source } => {
                    assert(displayed_as(Cause::Utf8(source), cause));
                },
            }
        }
        text
    }
}

impl<E> FromSpecImpl<std::io::Error> for ParserError<E> {
    open spec fn obeys_from_spec() -> bool {
        true
    }

    open spec fn from_spec(source: std::io::Error) -> Self {
        ParserError::Internal { source }
    }
}

impl<E> From<std::io::Error> for ParserError<E> {
    fn from(source: std::io::Error) -> (error: Self)
        ensures
            error == (ParserError::<E>::Internal { source }),
    {
        Self::Internal { source }
    }
}

impl<E> FromSpecImpl<Utf8Error> for ParserError<E> {
    open spec fn obeys_from_spec() -> bool {
        true
    }

    open spec fn from_spec(source: Utf8Error) -> Self {
        ParserError::Utf8 { source }
    }
}

impl<E> From<Utf8Error> for ParserError<E> {
    fn from(source: Utf8Error) -> (error: Self)
        ensures
            error == (ParserError::<E>::Utf8 { source }),
    {
        Self::Utf8 { source }
    }
}

impl FromSpecImpl<HtmlError> for ParserError<HtmlError> {
    open spec fn obeys_from_spec() -> bool {
        true
    }

    open spec fn from_spec(error: HtmlError) -> Self {
        ParserError::of_html(error)
    }
}

impl From<HtmlError> for ParserError<HtmlError> {
    fn from(error: HtmlError) -> (lifted: Self)
        ensures
            lifted == ParserError::of_html(error),
    {
        match error {
            HtmlError::Internal { source } => Self::Internal { source },
            HtmlError::Utf8 { source } => Self::Utf8 { source },
            _ => Self::Failed(error),
        }
    }
}

} // verus!
