//! Conversions whose tables live in the standard library: decoding bytes and UTF-16 units, and
//! changing the case of letters.

use vstd::prelude::*;
use vstd::utf8::{decode_utf8, is_ascii_chars, valid_utf8};

verus! {

/// The text that `String::from_utf8_lossy` makes of bytes that are not valid UTF-8.
pub uninterp spec fn utf8_lossy(bytes: Seq<u8>) -> Seq<char>;

/// The text that `str::to_lowercase` makes of one that is not all ASCII.
pub uninterp spec fn lowercase(s: Seq<char>) -> Seq<char>;

/// The text that a command's output holds: the decoded bytes where they are valid UTF-8.
pub open spec fn decoded(bytes: Seq<u8>) -> Seq<char> {
    if valid_utf8(bytes) {
        decode_utf8(bytes)
    } else {
        utf8_lossy(bytes)
    }
}

/// Whether a UTF-16 unit is half of a surrogate pair.
pub open spec fn is_surrogate(unit: u16) -> bool {
    0xd800 <= unit <= 0xdfff
}

/// Whether two UTF-16 units make a surrogate pair.
pub open spec fn is_pair(high: u16, low: u16) -> bool {
    0xd800 <= high <= 0xdbff && 0xdc00 <= low <= 0xdfff
}

/// The text that UTF-16 units hold: a unit that is no surrogate stands for the character with its
/// number, a surrogate pair for a character above them, and any other surrogate for the
/// replacement character.
pub open spec fn decoded_utf16(units: Seq<u16>) -> Seq<char>
    decreases units.len(),
{
    if units.len() == 0 {
        Seq::empty()
    } else if !is_surrogate(units[0]) {
        seq![units[0] as char] + decoded_utf16(units.drop_first())
    } else if units.len() > 1 && is_pair(units[0], units[1]) {
        seq![(0x10000 + (units[0] - 0xd800) * 0x400 + (units[1] - 0xdc00)) as char]
            + decoded_utf16(units.skip(2))
    } else {
        seq!['\u{fffd}'] + decoded_utf16(units.drop_first())
    }
}

/// Where no unit is a surrogate, each stands for the character with its number.
pub proof fn law_units_without_surrogates_stand_for_themselves(units: Seq<u16>)
    requires
        forall|i: int| 0 <= i < units.len() ==> !is_surrogate(#[trigger] units[i]),
    ensures
        decoded_utf16(units) == units.map_values(|unit: u16| unit as char),
    decreases units.len(),
{
    if units.len() > 0 {
        law_units_without_surrogates_stand_for_themselves(units.drop_first());
    }
    assert(decoded_utf16(units) =~= units.map_values(|unit: u16| unit as char));
}

/// The lower-case form of an ASCII character.
pub open spec fn ascii_lower(c: char) -> char {
    if 'A' <= c <= 'Z' {
        (c as u32 + 32) as char
    } else {
        c
    }
}

/// A text in lower case: in an ASCII text the letters from `A` to `Z` change and nothing else.
pub open spec fn lowered(s: Seq<char>) -> Seq<char> {
    if is_ascii_chars(s) {
        s.map_values(|c: char| ascii_lower(c))
    } else {
        lowercase(s)
    }
}

/// `String::from_utf8_lossy`: bytes that are valid UTF-8 are decoded as they are. Of other bytes
/// the contract says only that the text depends on them alone.
#[verifier::external_body]
fn from_utf8_lossy(bytes: &[u8]) -> (r: String)
    ensures
        valid_utf8(bytes@) ==> r@ == decode_utf8(bytes@),
        !valid_utf8(bytes@) ==> r@ == utf8_lossy(bytes@),
{
    String::from_utf8_lossy(bytes).into_owned()
}

/// `String::from_utf16_lossy`: surrogate pairs are joined, a surrogate without its other half
/// becomes the replacement character, and every other unit stands for the character with its
/// number.
#[verifier::external_body]
fn from_utf16_lossy(units: &[u16]) -> (r: String)
    ensures
        r@ == decoded_utf16(units@),
{
    String::from_utf16_lossy(units)
}

/// `str::to_lowercase`: in an ASCII text the letters from `A` to `Z` become `a` to `z` and nothing
/// else changes. Of other texts the contract says only that the result depends on them alone.
#[verifier::external_body]
fn to_lowercase(s: &str) -> (r: String)
    ensures
        is_ascii_chars(s@) ==> r@ == s@.map_values(|c: char| ascii_lower(c)),
        !is_ascii_chars(s@) ==> r@ == lowercase(s@),
{
    s.to_lowercase()
}

/// The text that a command printed.
pub fn decode(bytes: &[u8]) -> (r: String)
    ensures
        r@ == decoded(bytes@),
{
    from_utf8_lossy(bytes)
}

/// The text that UTF-16 units hold.
pub fn decode_utf16(units: &[u16]) -> (r: String)
    ensures
        r@ == decoded_utf16(units@),
{
    from_utf16_lossy(units)
}

/// A text in lower case.
pub fn lower(s: &str) -> (r: String)
    ensures
        r@ == lowered(s@),
{
    to_lowercase(s)
}

} // verus!
