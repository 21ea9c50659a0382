//! How numbers and letters are written and read.

#[allow(unused_imports)]
use crate::encoding::{ascii_lower, decode_utf16, decoded_utf16, lower, lowered};
#[allow(unused_imports)]
use crate::number::{
    all_digits, decimal, digits_value, is_digit, law_decimal_parses, parse_number, parse_u16,
    parse_u32, parsed, without_plus,
};
use vstd::prelude::*;
#[allow(unused_imports)]
use vstd::utf8::is_ascii_chars;

verus! {

/// A number below ten is written as its digit, and any other as its last digit behind the rest of
/// its digits.
pub proof fn law_decimal_digits(n: nat, d: nat)
    requires
        d < 10,
    ensures
        decimal(d) == seq!["0123456789"@[d as int]],
        n > 0 ==> decimal(10 * n + d) == decimal(n).push("0123456789"@[d as int]),
{
    reveal_strlit("0123456789");
    assert(decimal(d) =~= seq!["0123456789"@[d as int]]);
    assert((10 * n + d) / 10 == n);
    assert((10 * n + d) % 10 == d);
}

/// Whether a character is one of the ten digits.
pub open spec fn is_numeral(c: char) -> bool {
    "0123456789"@.contains(c)
}

/// Digits are the ten digits, and no other character.
pub proof fn law_numerals(c: char)
    ensures
        is_numeral(c) <==> is_digit(c),
{
    reveal_strlit("0123456789");
    let s = "0123456789"@;
    if is_digit(c) {
        assert(s[c as u32 - '0' as u32] == c);
    }
}

/// A decimal text is not empty and holds digits only.
pub proof fn law_decimal_is_numerals(n: nat)
    ensures
        decimal(n).len() > 0,
        forall|i: int| 0 <= i < decimal(n).len() ==> is_digit(#[trigger] decimal(n)[i]),
        decimal(n)[0] != '+',
    decreases n,
{
    if n >= 10 {
        law_decimal_is_numerals(n / 10);
    }
    assert(is_digit(decimal(n)[0]));
}

proof fn lemma_leading_zeros(zeros: nat, s: Seq<char>)
    ensures
        digits_value(Seq::new(zeros, |i: int| '0') + s) == digits_value(s),
    decreases s.len(), zeros,
{
    let z = Seq::new(zeros, |i: int| '0');
    if s.len() > 0 {
        lemma_leading_zeros(zeros, s.drop_last());
        assert((z + s).drop_last() =~= z + s.drop_last());
    } else if zeros > 0 {
        let fewer = Seq::new((zeros - 1) as nat, |i: int| '0');
        lemma_leading_zeros((zeros - 1) as nat, s);
        assert((z + s).drop_last() =~= fewer + s);
        assert((z + s).last() == '0');
    } else {
        assert(z + s =~= s);
    }
}

/// A number is read with or without a plus sign and leading zeros, up to the largest that is asked
/// for.
pub proof fn law_number_is_read(plus: bool, zeros: nat, n: nat, max: nat)
    ensures
        parsed(
            (if plus {
                seq!['+']
            } else {
                Seq::empty()
            }) + Seq::new(zeros, |i: int| '0') + decimal(n),
            max,
        ) == (if n <= max {
            Some(n)
        } else {
            None
        }),
{
    let sign = if plus {
        seq!['+']
    } else {
        Seq::<char>::empty()
    };
    let z = Seq::new(zeros, |i: int| '0');
    let d = z + decimal(n);
    let s = sign + z + decimal(n);
    law_decimal_is_numerals(n);
    law_decimal_parses(n, n);
    assert(without_plus(decimal(n)) == decimal(n));
    lemma_leading_zeros(zeros, decimal(n));
    assert forall|i: int| 0 <= i < d.len() implies is_digit(#[trigger] d[i]) by {
        if i >= z.len() {
            assert(d[i] == decimal(n)[i - z.len()]);
        }
    }
    assert(is_digit(d[0]));
    if plus {
        assert(s[0] == '+');
        assert(without_plus(s) =~= d);
    } else {
        assert(s =~= d);
    }
}

/// Nothing is no number, a sign alone is none, and neither is a text with a character behind the
/// sign that is no digit.
pub proof fn law_other_text_is_no_number(s: Seq<char>, max: nat, i: int)
    requires
        s.len() == 0 || s == seq!['+'] || (0 <= i < s.len() && !is_numeral(s[i]) && (i > 0 || s[i]
            != '+')),
    ensures
        parsed(s, max) is None,
{
    let d = without_plus(s);
    if s.len() > 0 && s != seq!['+'] {
        law_numerals(s[i]);
        if s[0] == '+' {
            assert(d[i - 1] == s[i]);
        } else {
            assert(d[i] == s[i]);
        }
    }
}

/// What is read is never above the largest number that is asked for, and a larger bound changes
/// nothing that is read.
pub proof fn law_bound_of_a_number(s: Seq<char>, small: nat, large: nat)
    requires
        small <= large,
    ensures
        parsed(s, small) matches Some(n) ==> n <= small && parsed(s, large) == Some(n),
        parsed(s, large) matches Some(n) ==> n <= small ==> parsed(s, small) == Some(n),
{
}

/// The port numbers end at 65535 and the process numbers at 4294967295.
pub proof fn law_number_types(s: &[char], small: Option<u16>, large: Option<u32>)
    requires
        call_ensures(parse_u16, (s,), small),
        call_ensures(parse_u32, (s,), large),
    ensures
        parsed(s@, 65535) == (match small {
            Some(n) => Some(n as nat),
            None => None::<nat>,
        }),
        parsed(s@, 4294967295) == (match large {
            Some(n) => Some(n as nat),
            None => None::<nat>,
        }),
{
}

/// A capital letter from `A` to `Z` becomes its small letter, and every other ASCII character
/// stays.
pub proof fn law_lower_case(s: &str, r: String, i: int, letter: int)
    requires
        call_ensures(lower, (s,), r),
        is_ascii_chars(s@),
        0 <= i < s@.len(),
        0 <= letter < 26,
    ensures
        r@.len() == s@.len(),
        s@[i] == "ABCDEFGHIJKLMNOPQRSTUVWXYZ"@[letter] ==> r@[i]
            == "abcdefghijklmnopqrstuvwxyz"@[letter],
        !"ABCDEFGHIJKLMNOPQRSTUVWXYZ"@.contains(s@[i]) ==> r@[i] == s@[i],
{
    reveal_strlit("ABCDEFGHIJKLMNOPQRSTUVWXYZ");
    reveal_strlit("abcdefghijklmnopqrstuvwxyz");
    let capitals = "ABCDEFGHIJKLMNOPQRSTUVWXYZ"@;
    let c = s@[i];
    if 'A' <= c <= 'Z' {
        assert(capitals[c as u32 - 'A' as u32] == c);
    }
    assert(capitals[letter] == (65 + letter) as char);
}

/// A UTF-16 text is read unit by unit: a unit outside the surrogates is its own character, and a
/// pair of surrogates is one character.
pub proof fn law_utf16_is_read_in_order(a: u16, high: u16, low: u16, rest: Seq<u16>)
    requires
        a < 0xd800 || a > 0xdfff,
        0xd800 <= high <= 0xdbff,
        0xdc00 <= low <= 0xdfff,
    ensures
        decoded_utf16(seq![a] + rest) == seq![a as char] + decoded_utf16(rest),
        decoded_utf16(seq![high, low] + rest) == seq![
            (0x10000 + (high - 0xd800) * 0x400 + (low - 0xdc00)) as char,
        ] + decoded_utf16(rest),
        decoded_utf16(seq![low] + rest) == seq!['\u{fffd}'] + decoded_utf16(rest),
        decoded_utf16(Seq::empty()) == Seq::<char>::empty(),
{
    assert((seq![a] + rest).drop_first() =~= rest);
    assert((seq![high, low] + rest).skip(2) =~= rest);
    assert((seq![low] + rest).drop_first() =~= rest);
    let s = seq![low] + rest;
    assert(s[0] == low);
    let t = seq![high, low] + rest;
    assert(t[0] == high && t[1] == low);
}

} // verus!
