//! Text measurement and formatting at the boundary with outside code.
//!
//! Column headers are measured in extended grapheme clusters, not bytes or
//! chars, so multi-byte text is sized correctly; numbers are rendered in
//! decimal for cell text.

use unicode_segmentation::UnicodeSegmentation;
use vstd::prelude::*;

verus! {

/// How many extended grapheme clusters a text splits into.
pub uninterp spec fn grapheme_count_of(s: Seq<char>) -> nat;

/// Relies on unicode_segmentation's `UnicodeSegmentation::graphemes` with
/// extended clusters, counted: the segmentation depends on the characters
/// alone, and empty text has no clusters.
#[verifier::external_body]
pub fn grapheme_count(s: &str) -> (r: usize)
    ensures
        r == grapheme_count_of(s@),
        s@.len() == 0 ==> r == 0,
{
    s.graphemes(true).count()
}

/// The width a column wants for its header: one cell per grapheme cluster
/// plus one spacer cell, capped at what a `u16` can hold.
pub open spec fn spec_desired_width(name: Seq<char>) -> int {
    vstd::math::min(grapheme_count_of(name) as int + 1, u16::MAX as int)
}

/// The header's desired width in cells: grapheme clusters plus one spacer.
pub fn desired_width(name: &str) -> (r: u16)
    ensures
        r == spec_desired_width(name@),
{
    let count: usize = grapheme_count(name);
    if count >= 65535 {
        65535
    } else {
        (count + 1) as u16
    }
}

/// The digit character for one decimal digit value.
pub open spec fn dec_digit(d: int) -> char {
    if d == 0 {
        '0'
    } else if d == 1 {
        '1'
    } else if d == 2 {
        '2'
    } else if d == 3 {
        '3'
    } else if d == 4 {
        '4'
    } else if d == 5 {
        '5'
    } else if d == 6 {
        '6'
    } else if d == 7 {
        '7'
    } else if d == 8 {
        '8'
    } else {
        '9'
    }
}

/// The decimal digits of a non-negative number, most significant first,
/// without leading zeros (`0` itself is the single digit `0`).
pub open spec fn dec_digits(n: int) -> Seq<char>
    recommends
        n >= 0,
    decreases n,
{
    if n < 10 {
        seq![dec_digit(n)]
    } else {
        dec_digits(n / 10).push(dec_digit(n % 10))
    }
}

/// Relies on `u64`'s `Display` implementation, through `format!`: the
/// decimal digits of `n`, most significant first, no sign, no leading zeros.
#[verifier::external_body]
pub fn u64_to_string(n: u64) -> (r: String)
    ensures
        r@ == dec_digits(n as int),
{
    format!("{}", n)
}

} // verus!
