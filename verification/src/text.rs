//! Text helpers for labels in the tab strip.

use vstd::prelude::*;
use vstd::string::*;

verus! {

/// Equality of string slices, `str`'s `PartialEq::eq`: two slices are equal
/// exactly when they hold the same characters in the same order.
pub assume_specification[ <str as PartialEq>::eq ](a: &str, b: &str) -> (same: bool)
    ensures
        same == (a@ == b@),
;

/// The character that stands for what was cut off a label.
pub open spec fn ellipsis() -> char {
    '\u{2026}'
}

/// `input` shortened to at most `max_length` characters.
///
/// A text that fits is returned as it is.  A longer one keeps its first
/// `max_length - 1` characters (none if `max_length` is zero) and ends in an
/// ellipsis.
pub open spec fn truncated(input: Seq<char>, max_length: nat) -> Seq<char> {
    if input.len() > max_length {
        let kept: nat = if max_length == 0 { 0 } else { (max_length - 1) as nat };
        input.subrange(0, kept as int).push(ellipsis())
    } else {
        input
    }
}

/// Shortens `input` to `max_length` characters, counted as `char`s, marking a
/// cut with an ellipsis.
pub fn truncate_with_ellipsis(input: &str, max_length: usize) -> (label: String)
    ensures
        label@ == truncated(input@, max_length as nat),
{
    if input.unicode_len() > max_length {
        let kept: usize = if max_length == 0 { 0 } else { max_length - 1 };
        let mut label = String::from_str(input.substring_char(0, kept));
        proof {
            reveal_strlit("\u{2026}");
        }
        label.append("\u{2026}");
        assert(label@ =~= truncated(input@, max_length as nat));
        label
    } else {
        String::from_str(input)
    }
}

} // verus!
