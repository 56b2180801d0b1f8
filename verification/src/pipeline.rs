//! One run over one document: from what reading the document came to, to the
//! links or the one error that stand for it, and to the lines shown for it.
//! Every run stands alone, so that a batch is a run per document.

use vstd::prelude::*;

use crate::document::{buildable, links_of, lowered_nodes, parsed_nodes, texts, Predicate};
use crate::error::{SystemError, SystemErrorView};
use crate::file::File;
use crate::html::{Html, HtmlAttribute, HtmlError, HtmlParser};
use crate::parser::{Parser, ParserError};
use crate::text::utf8_failure;
use vstd::string::StringExecFns;
use vstd::utf8::{decode_utf8, valid_utf8};

verus! {

/// What a run over the bytes of a document comes to. Bytes that are no
/// valid UTF-8 give a decoding failure that wraps the decoder's own failure
/// for them; valid bytes beyond what is built into a tree give the
/// extraction's failure that says so; all others give the links of their
/// document.
pub open spec fn extracted(
    bytes: Seq<u8>,
    predicate: Predicate,
    attribute: HtmlAttribute,
    outcome: Result<Vec<String>, SystemError>,
) -> bool {
    if !valid_utf8(bytes) {
        outcome is Err && outcome->Err_0@ == (SystemErrorView::Utf8 {
            source: utf8_failure(bytes),
        })
    } else if !buildable(bytes) {
        outcome is Err && outcome->Err_0@ == SystemErrorView::of_parser(
            ParserError::Failed(HtmlError::TooLarge),
        )
    } else {
        outcome is Ok && texts(outcome->Ok_0@) == links_of(
            lowered_nodes(parsed_nodes(decode_utf8(bytes))),
            predicate,
            attribute,
        )
    }
}

/// Runs the extraction on what reading a document came to. A failed read
/// surfaces as the unified error that wraps its cause, and the bytes that
/// were read as `extracted` says. There is no partial result: the outcome is
/// the links or one error.
pub fn extract(
    read: Result<Vec<u8>, std::io::Error>,
    predicate: &Predicate,
    attribute: HtmlAttribute,
) -> (outcome: Result<Vec<String>, SystemError>)
    ensures
        match read {
            Ok(bytes) => extracted(bytes@, *predicate, attribute, outcome),
            Err(source) => outcome is Err && outcome->Err_0@ == (SystemErrorView::Internal {
                source,
            }),
        },
{
    match File::new(read) {
        Ok(file) => {
            let parser = Parser::from(Html::from_bytes(file.get()));
            match parser.links(predicate, attribute) {
                Ok(links) => Ok(links),
                Err(err) => Err(SystemError::from(err)),
            }
        },
        Err(err) => Err(SystemError::from(err)),
    }
}

/// The line shown for one link.
pub open spec fn link_line(link: Seq<char>) -> Seq<char> {
    "link: "@ + link
}

/// The lines shown for the outcome of a run: one line per link, in the order
/// of the links, or the text of the error as the only line.
pub fn report(outcome: &Result<Vec<String>, SystemError>) -> (lines: Vec<String>)
    ensures
        match *outcome {
            Ok(links) => lines@.len() == links@.len() && forall|i: int|
                0 <= i < links@.len() ==> (#[trigger] lines@[i])@ == link_line(links@[i]@),
            Err(error) => lines@.len() == 1 && error@.shown_as(lines@[0]@),
        },
{
    let mut lines: Vec<String> = Vec::new();
    match outcome {
        Ok(links) => {
            let mut i: usize = 0;
            while i < links.len()
                invariant
                    i <= links.len(),
                    lines@.len() == i,
                    forall|j: int|
                        0 <= j < i ==> (#[trigger] lines@[j])@ == link_line(links@[j]@),
                decreases links.len() - i,
            {
                let mut line = "link: ".to_owned();
                line.append(links[i].as_str());
                lines.push(line);
                i += 1;
            }
        },
        Err(error) => {
            lines.push(error.to_string());
        },
    }
    lines
}

} // verus!
