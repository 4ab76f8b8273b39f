//! The boundary to `unicode-segmentation` and to the character classes of
//! `std`.
//!
//! Nothing in this module is proved: each function states what the code it
//! calls is documented to do. Everything else in the crate is verified
//! against these statements.
use unicode_segmentation::UnicodeSegmentation;
use vstd::prelude::*;

verus! {

/// The extended grapheme clusters of `text`, in order, as
/// `UnicodeSegmentation::graphemes(text, true)` yields them.
pub uninterp spec fn grapheme_clusters(text: Seq<char>) -> Seq<Seq<char>>;

/// The pieces between the word boundaries of `text`, first piece first, as
/// the iterator of `UnicodeSegmentation::split_word_bound_indices(text)`
/// hands them out by `next`.
pub uninterp spec fn word_bounds(text: Seq<char>) -> Seq<Seq<char>>;

/// The pieces between the word boundaries of `text`, last piece first, as
/// the iterator of `UnicodeSegmentation::split_word_bound_indices(text)`
/// hands them out by `next_back`.
pub uninterp spec fn word_bounds_back(text: Seq<char>) -> Seq<Seq<char>>;

/// Whether `c` has the `White_Space` property, as `char::is_whitespace` tells.
pub uninterp spec fn is_whitespace(c: char) -> bool;

/// Whether `c` is a control code, as `char::is_control` tells.
pub uninterp spec fn is_control(c: char) -> bool;

/// The texts of a sequence of strings.
pub open spec fn texts(strings: Seq<String>) -> Seq<Seq<char>> {
    Seq::new(strings.len(), |i: int| strings[i]@)
}

/// Splits `text` into its extended grapheme clusters.
///
/// Calls `UnicodeSegmentation::graphemes` with `is_extended` set. Trusted:
/// the clusters are a function of the text alone; the iterator hands out
/// consecutive, non-empty slices of `text` until none of it is left, so the
/// clusters concatenate to `text`.
#[verifier::external_body]
pub(crate) fn graphemes(text: &str) -> (clusters: Vec<String>)
    ensures
        texts(clusters@) == grapheme_clusters(text@),
        texts(clusters@).flatten() == text@,
        forall|i: int| 0 <= i < clusters@.len() ==> (#[trigger] clusters@[i])@.len() > 0,
{
    UnicodeSegmentation::graphemes(text, true).map(String::from).collect()
}

/// Splits `text` on its word boundaries, first piece first.
///
/// Calls `UnicodeSegmentation::split_word_bound_indices` and walks it from
/// the front, keeping each piece and dropping its byte offset. Trusted: the
/// pieces are a function of the text alone.
#[verifier::external_body]
pub(crate) fn split_on_word_bounds(text: &str) -> (pieces: Vec<String>)
    ensures
        texts(pieces@) == word_bounds(text@),
{
    UnicodeSegmentation::split_word_bound_indices(text)
        .map(|(_, piece)| String::from(piece))
        .collect()
}

/// Splits `text` on its word boundaries, last piece first.
///
/// Calls `UnicodeSegmentation::split_word_bound_indices` and walks it from
/// the back, keeping each piece and dropping its byte offset. Trusted: the
/// pieces are a function of the text alone.
#[verifier::external_body]
pub(crate) fn split_on_word_bounds_back(text: &str) -> (pieces: Vec<String>)
    ensures
        texts(pieces@) == word_bounds_back(text@),
{
    UnicodeSegmentation::split_word_bound_indices(text)
        .rev()
        .map(|(_, piece)| String::from(piece))
        .collect()
}

/// Tells whether `c` is white space.
///
/// Calls `char::is_whitespace`. Trusted: the answer is a function of `c`.
#[verifier::external_body]
pub(crate) fn char_is_whitespace(c: char) -> (b: bool)
    ensures
        b == is_whitespace(c),
{
    c.is_whitespace()
}

/// Tells whether `c` is a control code.
///
/// Calls `char::is_control`. Trusted: the answer is a function of `c`.
#[verifier::external_body]
pub(crate) fn char_is_control(c: char) -> (b: bool)
    ensures
        b == is_control(c),
{
    c.is_control()
}

/// Appends `c` to `string`.
///
/// Calls `String::push`. Trusted: the string grows by `c` at its end.
#[verifier::external_body]
pub(crate) fn push_char(string: &mut String, c: char)
    ensures
        final(string)@ == old(string)@.push(c),
{
    string.push(c)
}

} // verus!
