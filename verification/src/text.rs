//! The string operations of the standard library that the rest of the crate
//! builds on, each with the contract that verified callers rely on.

use vstd::prelude::*;

use std::str::Utf8Error;
use vstd::string::StringSliceAdditionalSpecFns;
use vstd::utf8::valid_utf8;

verus! {

/// The error that `std::str::from_utf8` gives for bytes that are no valid
/// UTF-8: it tells up to where the bytes are valid and what follows there.
pub uninterp spec fn utf8_failure(bytes: Seq<u8>) -> Utf8Error;

/// Calls `std::str::from_utf8`: the bytes come back as a string slice over
/// the same bytes where they are valid UTF-8, and as an error where they are
/// not. The error depends on the bytes alone and carries the name
/// `utf8_failure` of them.
#[verifier::external_body]
pub(crate) fn from_utf8(bytes: &[u8]) -> (text: Result<&str, Utf8Error>)
    ensures
        text is Ok <==> valid_utf8(bytes@),
        text is Ok ==> text.unwrap().spec_bytes() == bytes@,
        text is Err ==> text->Err_0 == utf8_failure(bytes@),
{
    std::str::from_utf8(bytes)
}

/// The lowercase form of a text as `str::to_lowercase` computes it, following
/// the Unicode lowercase mapping.
pub uninterp spec fn lowercase_of(text: Seq<char>) -> Seq<char>;

/// Calls `str::to_lowercase`. The Unicode tables are not restated: the
/// contract only gives the result its name, `lowercase_of` of the argument.
#[verifier::external_body]
pub(crate) fn to_lowercase(text: &str) -> (lowered: String)
    ensures
        lowered@ == lowercase_of(text@),
{
    text.to_lowercase()
}

/// Whether two texts hold the same characters.
pub fn same_text(left: &str, right: &str) -> (same: bool)
    ensures
        same == (left@ == right@),
{
    left.to_owned() == right.to_owned()
}

/// Calls `str::strip_prefix` with a string pattern: when `text` starts with
/// `prefix` the rest of `text` after it comes back, otherwise `None`. The
/// prefix is removed once.
#[verifier::external_body]
pub(crate) fn strip_prefix<'a>(text: &'a str, prefix: &str) -> (rest: Option<&'a str>)
    ensures
        rest is Some <==> prefix@.is_prefix_of(text@),
        rest is Some ==> rest.unwrap()@ == text@.skip(prefix@.len() as int),
{
    text.strip_prefix(prefix)
}

/// Calls `str::strip_suffix` with a string pattern: when `text` ends with
/// `suffix` the part of `text` before it comes back, otherwise `None`. The
/// suffix is removed once.
#[verifier::external_body]
pub(crate) fn strip_suffix<'a>(text: &'a str, suffix: &str) -> (rest: Option<&'a str>)
    ensures
        rest is Some <==> suffix@.is_suffix_of(text@),
        rest is Some ==> rest.unwrap()@ == text@.take(text@.len() - suffix@.len()),
{
    text.strip_suffix(suffix)
}

} // verus!
