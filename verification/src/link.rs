//! The canonical form of a link: which affixes are stripped from an attribute
//! value, in which order, and what follows from that.

use vstd::prelude::*;

verus! {

/// `text` without `prefix` at its start, where it starts with `prefix`;
/// `text` itself where it does not. One occurrence is removed at most.
pub open spec fn strip_leading(text: Seq<char>, prefix: Seq<char>) -> Seq<char> {
    if prefix.is_prefix_of(text) {
        text.skip(prefix.len() as int)
    } else {
        text
    }
}

/// `text` without `suffix` at its end, where it ends with `suffix`; `text`
/// itself where it does not. One occurrence is removed at most.
pub open spec fn strip_trailing(text: Seq<char>, suffix: Seq<char>) -> Seq<char> {
    if suffix.is_suffix_of(text) {
        text.take(text.len() - suffix.len())
    } else {
        text
    }
}

/// The affix `https`.
pub open spec fn secure_scheme() -> Seq<char> {
    seq!['h', 't', 't', 'p', 's']
}

/// The affix `http`.
pub open spec fn plain_scheme() -> Seq<char> {
    seq!['h', 't', 't', 'p']
}

/// The affix `:`.
pub open spec fn colon() -> Seq<char> {
    seq![':']
}

/// The affix `//`.
pub open spec fn double_slash() -> Seq<char> {
    seq!['/', '/']
}

/// The affix `www.`.
pub open spec fn web_prefix() -> Seq<char> {
    seq!['w', 'w', 'w', '.']
}

/// The affix `/`, which is stripped from the end.
pub open spec fn slash() -> Seq<char> {
    seq!['/']
}

/// The canonical form of `raw`: a leading `https`, then a leading `http`, then
/// a leading `:`, then a leading `//`, then a leading `www.` and last a
/// trailing `/` are stripped, each once and only where it is present at that
/// step.
pub open spec fn normalized(raw: Seq<char>) -> Seq<char> {
    let after_secure = strip_leading(raw, secure_scheme());
    let after_plain = strip_leading(after_secure, plain_scheme());
    let after_colon = strip_leading(after_plain, colon());
    let after_slashes = strip_leading(after_colon, double_slash());
    let after_web = strip_leading(after_slashes, web_prefix());
    strip_trailing(after_web, slash())
}

/// Whether one of the affixes that normalization strips stands at the start
/// or at the end of `text`.
pub open spec fn has_affix(text: Seq<char>) -> bool {
    ||| secure_scheme().is_prefix_of(text)
    ||| plain_scheme().is_prefix_of(text)
    ||| colon().is_prefix_of(text)
    ||| double_slash().is_prefix_of(text)
    ||| web_prefix().is_prefix_of(text)
    ||| slash().is_suffix_of(text)
}

/// Normalization never lengthens a text, and shortens every text that
/// carries an affix.
pub proof fn lemma_normalized_length(raw: Seq<char>)
    ensures
        normalized(raw).len() <= raw.len(),
        has_affix(raw) ==> normalized(raw).len() < raw.len(),
{
}

/// A text without any affix passes through unchanged, and only such a text
/// does: the fixed points of normalization are the texts without an affix.
pub proof fn lemma_fixed_points(text: Seq<char>)
    ensures
        normalized(text) == text <==> !has_affix(text),
{
    lemma_normalized_length(text);
}

/// Normalizing twice gives what normalizing once gives, for every text whose
/// canonical form carries no affix any more.
pub proof fn lemma_normalized_idempotent(raw: Seq<char>)
    requires
        !has_affix(normalized(raw)),
    ensures
        normalized(normalized(raw)) == normalized(raw),
{
    lemma_fixed_points(normalized(raw));
}

/// Where the canonical form of a text still carries an affix, a second
/// normalization takes it away and so differs from the first: one pass
/// settles exactly the texts that `lemma_normalized_idempotent` speaks of.
pub proof fn lemma_unsettled_links_change(raw: Seq<char>)
    requires
        has_affix(normalized(raw)),
    ensures
        normalized(normalized(raw)) != normalized(raw),
{
    lemma_fixed_points(normalized(raw));
}

} // verus!
