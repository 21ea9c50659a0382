//! Exported files, which arrive as base64 text.

use base64::Engine;
use vstd::prelude::*;
use vstd::string::*;

verus! {

/// The character of the standard base64 alphabet for a number below 64.
pub open spec fn base64_char(n: int) -> char {
    if n < 26 {
        ('A' as u32 + n) as char
    } else if n < 52 {
        ('a' as u32 + (n - 26)) as char
    } else if n < 62 {
        ('0' as u32 + (n - 52)) as char
    } else if n == 62 {
        '+'
    } else {
        '/'
    }
}

/// The base64 text of bytes: four characters for every three bytes, with the last group padded.
pub open spec fn base64_text(b: Seq<u8>) -> Seq<char>
    decreases b.len(),
{
    if b.len() == 0 {
        Seq::empty()
    } else if b.len() == 1 {
        seq![base64_char((b[0] / 4) as int), base64_char(b[0] % 4 * 16), '=', '=']
    } else if b.len() == 2 {
        seq![
            base64_char((b[0] / 4) as int),
            base64_char(b[0] % 4 * 16 + b[1] / 16),
            base64_char(b[1] % 16 * 4),
            '=',
        ]
    } else {
        seq![
            base64_char((b[0] / 4) as int),
            base64_char(b[0] % 4 * 16 + b[1] / 16),
            base64_char(b[1] % 16 * 4 + b[2] / 64),
            base64_char((b[2] % 64) as int),
        ] + base64_text(b.skip(3))
    }
}

/// The message of the error with which base64 decoding refuses a text.
pub uninterp spec fn base64_error(text: Seq<char>) -> Seq<char>;

/// Whether `bytes` is what decoding a text gives: the bytes of which it is the base64 text, or
/// none where there are no such bytes.
pub open spec fn decodes_to(text: Seq<char>, bytes: Option<Seq<u8>>) -> bool {
    match bytes {
        Some(b) => base64_text(b) == text,
        None => forall|b: Seq<u8>| #[trigger] base64_text(b) != text,
    }
}

/// `base64::Engine::decode` of the engine `general_purpose::STANDARD`, which demands canonical
/// padding and no stray bits: it succeeds on the base64 text of some bytes, which it returns, and
/// refuses any other text. The message of the refusal (`DecodeError` as text) depends on the text
/// alone.
#[verifier::external_body]
fn decode_standard(text: &str) -> (r: Result<Vec<u8>, String>)
    ensures
        match r {
            Ok(b) => base64_text(b@) == text@,
            Err(message) => {
                &&& forall|b: Seq<u8>| #[trigger] base64_text(b) != text@
                &&& message@ == base64_error(text@)
            },
        },
{
    base64::engine::general_purpose::STANDARD.decode(text).map_err(|e| e.to_string())
}

/// The bytes of an exported file, from their base64 text.
pub fn export_bytes(base64_content: &str) -> (r: Result<Vec<u8>, String>)
    ensures
        decodes_to(
            base64_content@,
            match r {
                Ok(b) => Some(b@),
                Err(_) => None,
            },
        ),
        r matches Err(message) ==> message@ == "Decode error: "@ + base64_error(base64_content@),
{
    match decode_standard(base64_content) {
        Ok(bytes) => Ok(bytes),
        Err(e) => {
            let mut message: String = "Decode error: ".to_string();
            message.append(e.as_str());
            Err(message)
        },
    }
}

/// An exported file holds the bytes that were encoded: decoding the base64 text of any bytes
/// gives them back.
pub proof fn law_export_keeps_the_bytes(bytes: Seq<u8>, out: Option<Seq<u8>>)
    requires
        decodes_to(base64_text(bytes), out),
    ensures
        out == Some(bytes),
{
    if out is Some {
        lemma_base64_text_is_injective(out->0, bytes);
    }
}

proof fn lemma_base64_char_is_injective(m: int, n: int)
    requires
        0 <= m < 64,
        0 <= n < 64,
    ensures
        base64_char(m) == base64_char(n) ==> m == n,
        base64_char(m) != '=',
{
}

proof fn lemma_base64_text_len(b: Seq<u8>)
    ensures
        base64_text(b).len() == (b.len() + 2) / 3 * 4,
    decreases b.len(),
{
    if b.len() >= 3 {
        lemma_base64_text_len(b.skip(3));
    }
}

/// The four characters of a group determine its three bytes.
proof fn lemma_group_is_injective(a0: u8, a1: u8, a2: u8, b0: u8, b1: u8, b2: u8)
    requires
        base64_char((a0 / 4) as int) == base64_char((b0 / 4) as int),
        base64_char(a0 % 4 * 16 + a1 / 16) == base64_char(b0 % 4 * 16 + b1 / 16),
        base64_char(a1 % 16 * 4 + a2 / 64) == base64_char(b1 % 16 * 4 + b2 / 64),
        base64_char((a2 % 64) as int) == base64_char((b2 % 64) as int),
    ensures
        a0 == b0,
        a1 == b1,
        a2 == b2,
{
    lemma_base64_char_is_injective((a0 / 4) as int, (b0 / 4) as int);
    lemma_base64_char_is_injective(a0 % 4 * 16 + a1 / 16, b0 % 4 * 16 + b1 / 16);
    lemma_base64_char_is_injective(a1 % 16 * 4 + a2 / 64, b1 % 16 * 4 + b2 / 64);
    lemma_base64_char_is_injective((a2 % 64) as int, (b2 % 64) as int);
}

proof fn lemma_base64_text_is_injective(a: Seq<u8>, b: Seq<u8>)
    requires
        base64_text(a) == base64_text(b),
    ensures
        a == b,
    decreases a.len(),
{
    let s = base64_text(a);
    let t = base64_text(b);
    lemma_base64_text_len(a);
    lemma_base64_text_len(b);
    if a.len() == 0 {
        assert(a =~= b);
    } else {
        let z = 0u8;
        let (a1, a2) = (
            if a.len() > 1 {
                a[1]
            } else {
                z
            },
            if a.len() > 2 {
                a[2]
            } else {
                z
            },
        );
        let (b1, b2) = (
            if b.len() > 1 {
                b[1]
            } else {
                z
            },
            if b.len() > 2 {
                b[2]
            } else {
                z
            },
        );
        assert(s[0] == t[0] && s[1] == t[1] && s[2] == t[2] && s[3] == t[3]);
        lemma_base64_char_is_injective(a1 % 16 * 4 + a2 / 64, b1 % 16 * 4 + b2 / 64);
        lemma_base64_char_is_injective(b1 % 16 * 4 + b2 / 64, a1 % 16 * 4 + a2 / 64);
        lemma_base64_char_is_injective((a2 % 64) as int, (b2 % 64) as int);
        lemma_base64_char_is_injective((b2 % 64) as int, (a2 % 64) as int);
        if a.len() == 1 {
            assert(s[2] == '=');
            assert(b.len() == 1);
            lemma_group_is_injective(a[0], z, z, b[0], z, z);
            assert(a =~= b);
        } else if a.len() == 2 {
            assert(s[3] == '=' && s[2] != '=');
            assert(b.len() == 2);
            lemma_group_is_injective(a[0], a[1], z, b[0], b[1], z);
            assert(a =~= b);
        } else {
            assert(s[3] != '=');
            assert(b.len() >= 3);
            assert(s[0] == base64_char((a[0] / 4) as int));
            assert(t[0] == base64_char((b[0] / 4) as int));
            assert(s[1] == base64_char(a[0] % 4 * 16 + a[1] / 16));
            assert(t[1] == base64_char(b[0] % 4 * 16 + b[1] / 16));
            assert(s[2] == base64_char(a[1] % 16 * 4 + a[2] / 64));
            assert(t[2] == base64_char(b[1] % 16 * 4 + b[2] / 64));
            assert(s[3] == base64_char((a[2] % 64) as int));
            assert(t[3] == base64_char((b[2] % 64) as int));
            lemma_group_is_injective(a[0], a[1], a[2], b[0], b[1], b[2]);
            assert(s.skip(4) =~= base64_text(a.skip(3)));
            assert(t.skip(4) =~= base64_text(b.skip(3)));
            lemma_base64_text_is_injective(a.skip(3), b.skip(3));
            assert forall|i: int| 0 <= i < a.len() implies a[i] == b[i] by {
                if i >= 3 {
                    assert(a.skip(3)[i - 3] == b.skip(3)[i - 3]);
                }
            }
            assert(a.skip(3).len() == b.skip(3).len());
            assert(a =~= b);
        }
    }
}

} // verus!
