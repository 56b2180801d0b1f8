//! The error that every layer's failure converts into, and the failures of
//! the standard library that the layers wrap.

use vstd::prelude::*;

use crate::file::FileError;
use crate::html::HtmlError;
use crate::parser::ParserError;
use std::str::Utf8Error;
use vstd::std_specs::convert::FromSpecImpl;
use vstd::string::{to_string_from_display_ensures, StringExecFns};

verus! {

/// `std::io::Error`, carried through as it is.
#[verifier::external_type_specification]
#[verifier::external_body]
pub struct ExIoError(std::io::Error);

/// `core::str::Utf8Error`, carried through as it is.
#[verifier::external_type_specification]
#[verifier::external_body]
pub struct ExUtf8Error(core::str::Utf8Error);

/// The failure that an error wraps.
#[derive(Debug)]
pub enum Cause<'a> {
    Io(&'a std::io::Error),
    Utf8(&'a Utf8Error),
}

/// Whether `text` is a text that the `Display` impl of the cause gives.
pub open spec fn displayed_as(cause: Cause<'_>, text: String) -> bool {
    match cause {
        Cause::Io(source) => to_string_from_display_ensures::<std::io::Error>(source, text),
        Cause::Utf8(source) => to_string_from_display_ensures::<Utf8Error>(source, text),
    }
}

/// Whether `text` is `mark` followed by a text that the cause is displayed
/// as.
pub open spec fn displayed_after(cause: Cause<'_>, mark: Seq<char>, text: Seq<char>) -> bool {
    exists|shown: String| #[trigger] displayed_as(cause, shown) && text == mark + shown@
}

/// The layer that a failure of the library's own making comes from.
#[derive(Debug, Clone, Copy, PartialEq, Eq, Structural)]
pub enum ErrorKind {
    /// The file layer.
    File,
    /// The document layer.
    Html,
    /// The extraction.
    Parser,
}

/// The error that the failures of all layers convert into.
#[derive(Debug)]
#[allow(inconsistent_fields)]
pub enum SystemError {
    /// A failure of one layer's own making, with the text that layer gave it.
    Local { kind: ErrorKind, message: String },
    /// A failure of the source of the bytes.
    Internal { source: std::io::Error },
    /// A failure to decode the bytes as UTF-8.
    Utf8 { source: Utf8Error },
}

/// What a `SystemError` holds, with the message as a sequence of characters.
#[allow(inconsistent_fields)]
pub enum SystemErrorView {
    Local { kind: ErrorKind, message: Seq<char> },
    Internal { source: std::io::Error },
    Utf8 { source: Utf8Error },
}

impl View for SystemError {
    type V = SystemErrorView;

    open spec fn view(&self) -> SystemErrorView {
        match *self {
            SystemError::Local { kind, message } => SystemErrorView::Local {
                kind,
                message: message@,
            },
            SystemError::Internal { source } => SystemErrorView::Internal { source },
            SystemError::Utf8 { source } => SystemErrorView::Utf8 { source },
        }
    }
}

impl ErrorKind {
    /// The word that stands for the layer in an error's text.
    pub open spec fn label(self) -> Seq<char> {
        match self {
            ErrorKind::File => "file"@,
            ErrorKind::Html => "document"@,
            ErrorKind::Parser => "parser"@,
        }
    }

    pub fn to_string(&self) -> (text: String)
        ensures
            text@ == self.label(),
    {
        match self {
            ErrorKind::File => "file".to_owned(),
            ErrorKind::Html => "document".to_owned(),
            ErrorKind::Parser => "parser".to_owned(),
        }
    }
}

impl SystemErrorView {
    /// What becomes of a failure of the file layer: the failure of the source
    /// that it wraps.
    pub open spec fn of_file(error: FileError) -> SystemErrorView {
        match error {
            FileError::Internal { source } => SystemErrorView::Internal { source },
        }
    }

    /// What becomes of a failure of the document layer: a wrapped failure
    /// stays what it is, a failure of the layer itself is kept with its text.
    pub open spec fn of_html(error: HtmlError) -> SystemErrorView {
        match error {
            HtmlError::Internal { source } => SystemErrorView::Internal { source },
            HtmlError::Utf8 { source } => SystemErrorView::Utf8 { source },
            _ => SystemErrorView::Local { kind: ErrorKind::Html, message: error.local_text() },
        }
    }

    /// What becomes of a failure of the extraction: a wrapped failure stays
    /// what it is, also where the document layer had wrapped it; a failure of
    /// the document layer itself is kept with the text of the extraction.
    pub open spec fn of_parser(error: ParserError<HtmlError>) -> SystemErrorView {
        match error {
            ParserError::Internal { source } => SystemErrorView::Internal { source },
            ParserError::Utf8 { source } => SystemErrorView::Utf8 { source },
            ParserError::Failed(HtmlError::Internal { source }) => SystemErrorView::Internal {
                source,
            },
            ParserError::Failed(HtmlError::Utf8 { source }) => SystemErrorView::Utf8 { source },
            ParserError::Failed(inner) => SystemErrorView::Local {
                kind: ErrorKind::Parser,
                message: ParserError::<HtmlError>::failed_form(inner.local_text()),
            },
        }
    }

    /// Whether `text` is a text that the error is shown as. A failure of a
    /// layer's own making has one text, `<kind> error: <message>`; a wrapped
    /// failure is shown as `[Internal] error: ` or `[Utf8] error: ` followed
    /// by a text that its cause is displayed as.
    pub open spec fn shown_as(self, text: Seq<char>) -> bool {
        match self {
            SystemErrorView::Local { kind, message } => text == SystemError::local_form(
                kind,
                message,
            ),
            SystemErrorView::Internal { source } => displayed_after(
                Cause::Io(&source),
                SystemError::internal_mark(),
                text,
            ),
            SystemErrorView::Utf8 { source } => displayed_after(
                Cause::Utf8(&source),
                SystemError::utf8_mark(),
                text,
            ),
        }
    }

    /// The failure that this one wraps.
    pub open spec fn cause(self) -> Option<Cause<'static>> {
        match self {
            SystemErrorView::Internal { source } => Some(Cause::Io(&source)),
            SystemErrorView::Utf8 { source } => Some(Cause::Utf8(&source)),
            SystemErrorView::Local { .. } => None,
        }
    }
}

impl SystemError {
    /// The text of a failure of a layer's own making.
    pub open spec fn local_form(kind: ErrorKind, message: Seq<char>) -> Seq<char> {
        kind.label() + " error: "@ + message
    }

    /// What the text of a wrapped failure of the source begins with.
    pub open spec fn internal_mark() -> Seq<char> {
        "[Internal] error: "@
    }

    /// What the text of a wrapped decoding failure begins with.
    pub open spec fn utf8_mark() -> Seq<char> {
        "[Utf8] error: "@
    }

    /// The text of a wrapped failure of the source, given the cause's text.
    pub open spec fn internal_form(cause: Seq<char>) -> Seq<char> {
        Self::internal_mark() + cause
    }

    /// The text of a wrapped decoding failure, given the cause's text.
    pub open spec fn utf8_form(cause: Seq<char>) -> Seq<char> {
        Self::utf8_mark() + cause
    }

    pub fn local_text(kind: ErrorKind, message: &str) -> (text: String)
        ensures
            text@ == Self::local_form(kind, message@),
    {
        let mut text = kind.to_string();
        text.append(" error: ");
        text.append(message);
        text
    }

    pub fn internal_text(cause: &str) -> (text: String)
        ensures
            text@ == Self::internal_form(cause@),
    {
        let mut text = "[Internal] error: ".to_owned();
        text.append(cause);
        text
    }

    pub fn utf8_text(cause: &str) -> (text: String)
        ensures
            text@ == Self::utf8_form(cause@),
    {
        let mut text = "[Utf8] error: ".to_owned();
        text.append(cause);
        text
    }

    /// The text shown for the error.
    pub fn to_string(&self) -> (text: String)
        ensures
            self@.shown_as(text@),
    {
        match self {
            SystemError::Local { kind, message } => Self::local_text(*kind, message.as_str()),
            SystemError::Internal { source } => {
                let cause = source.to_string();
                let text = Self::internal_text(cause.as_str());
                proof {
                    assert(self@ == SystemErrorView::Internal { source: *source });
                    assert(displayed_as(Cause::Io(source), cause));
                    assert(self@.shown_as(text@));
                }
                text
            },
            SystemError::Utf8 { source } => {
                let cause = source.to_string();
                let text = Self::utf8_text(cause.as_str());
                proof {
                    assert(self@ == SystemErrorView::Utf8 { source: *source });
                    assert(displayed_as(Cause::Utf8(source), cause));
                    assert(self@.shown_as(text@));
                }
                text
            },
        }
    }

    /// The failure that this one wraps, where it wraps one.
    pub fn source(&self) -> (cause: Option<Cause<'_>>)
        ensures
            cause == self@.cause(),
    {
        match self {
            SystemError::Internal { source } => Some(Cause::Io(source)),
            SystemError::Utf8 { source } => Some(Cause::Utf8(source)),
            SystemError::Local { .. } => None,
        }
    }
}

/// No conversion loses the cause: what a failure of the document layer
/// wraps is what the unified error wraps, whether the failure is converted
/// directly or by way of the extraction's error; and so for a failure of the
/// file layer.
pub proof fn lemma_cause_is_kept(error: HtmlError, file_error: FileError)
    ensures
        SystemErrorView::of_html(error).cause() == error.cause(),
        SystemErrorView::of_parser(ParserError::of_html(error)).cause() == error.cause(),
        SystemErrorView::of_file(file_error).cause() == file_error.cause(),
{
}

/// No conversion changes what kind of failure it is: a decoding failure
/// stays a decoding failure and a failure of the source stays one, on every
/// way up; a failure of a layer's own making is kept under that layer's kind,
/// with the text that the layer gives it.
pub proof fn lemma_kind_is_kept(error: HtmlError)
    ensures
        error is Utf8 ==> SystemErrorView::of_html(error) is Utf8 && SystemErrorView::of_parser(
            ParserError::of_html(error),
        ) is Utf8,
        error is Internal ==> SystemErrorView::of_html(error) is Internal
            && SystemErrorView::of_parser(ParserError::of_html(error)) is Internal,
        error.is_local() ==> SystemErrorView::of_html(error) == (SystemErrorView::Local {
            kind: ErrorKind::Html,
            message: error.local_text(),
        }) && SystemErrorView::of_parser(ParserError::of_html(error)) == (SystemErrorView::Local {
            kind: ErrorKind::Parser,
            message: ParserError::<HtmlError>::failed_form(error.local_text()),
        }),
{
}

impl FromSpecImpl<std::io::Error> for SystemError {
    open spec fn obeys_from_spec() -> bool {
        true
    }

    open spec fn from_spec(source: std::io::Error) -> Self {
        SystemError::Internal { source }
    }
}

impl From<std::io::Error> for SystemError {
    fn from(source: std::io::Error) -> (error: Self)
        ensures
            error == (SystemError::Internal { source }),
    {
        Self::Internal { source }
    }
}

impl FromSpecImpl<Utf8Error> for SystemError {
    open spec fn obeys_from_spec() -> bool {
        true
    }

    open spec fn from_spec(source: Utf8Error) -> Self {
        SystemError::Utf8 { source }
    }
}

impl From<Utf8Error> for SystemError {
    fn from(source: Utf8Error) -> (error: Self)
        ensures
            error == (SystemError::Utf8 { source }),
    {
        Self::Utf8 { source }
    }
}

impl FromSpecImpl<FileError> for SystemError {
    open spec fn obeys_from_spec() -> bool {
        true
    }

    open spec fn from_spec(error: FileError) -> Self {
        match error {
            FileError::Internal { source } => SystemError::Internal { source },
        }
    }
}

impl From<FileError> for SystemError {
    fn from(error: FileError) -> (unified: Self)
        ensures
            unified@ == SystemErrorView::of_file(error),
    {
        match error {
            FileError::Internal { source } => Self::Internal { source },
        }
    }
}

impl FromSpecImpl<HtmlError> for SystemError {
    /// The message of a converted error is a fresh `String`: the conversion
    /// is stated over the view, by `from`'s own contract.
    open spec fn obeys_from_spec() -> bool {
        false
    }

    open spec fn from_spec(error: HtmlError) -> Self {
        choose|unified: SystemError| unified@ == SystemErrorView::of_html(error)
    }
}

impl From<HtmlError> for SystemError {
    fn from(error: HtmlError) -> (unified: Self)
        ensures
            unified@ == SystemErrorView::of_html(error),
    {
        match error {
            HtmlError::Internal { source } => Self::Internal { source },
            HtmlError::Utf8 { source } => Self::Utf8 { source },
            _ => Self::Local { kind: ErrorKind::Html, message: error.to_string() },
        }
    }
}

impl FromSpecImpl<ParserError<HtmlError>> for SystemError {
    /// The message of a converted error is a fresh `String`: the conversion
    /// is stated over the view, by `from`'s own contract.
    open spec fn obeys_from_spec() -> bool {
        false
    }

    open spec fn from_spec(error: ParserError<HtmlError>) -> Self {
        choose|unified: SystemError| unified@ == SystemErrorView::of_parser(error)
    }
}

impl From<ParserError<HtmlError>> for SystemError {
    fn from(error: ParserError<HtmlError>) -> (unified: Self)
        ensures
            unified@ == SystemErrorView::of_parser(error),
    {
        match error {
            ParserError::Internal { source } => Self::Internal { source },
            ParserError::Utf8 { source } => Self::Utf8 { source },
            ParserError::Failed(HtmlError::Internal { source }) => Self::Internal { source },
            ParserError::Failed(HtmlError::Utf8 { source }) => Self::Utf8 { source },
            _ => Self::Local { kind: ErrorKind::Parser, message: error.to_string() },
        }
    }
}

} // verus!
