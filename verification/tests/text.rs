use zoh_monitor::encoding::{decode, decode_utf16, lower};
use zoh_monitor::number::{decimal_text, parse_number, parse_u16, parse_u32};
use zoh_monitor::text::{
    chars_of, ends_with_text, has_text, is_space, lines_of, same_text, split_chars, string_of,
    trim_chars, trim_end_chars, without_text, words_of, Delimiter,
};

const SAMPLES: [&str; 16] = [
    "",
    "\n",
    "\r\n",
    "a",
    "a\n",
    "a\r\nb\r",
    "a\n\nb",
    "\r",
    "one  two\tthree ",
    "  TCP    0.0.0.0:135   0.0.0.0:0   LISTENING   1044\r\n  UDP  [::]:5353  *:*  99\r\n",
    "\u{a0}x\u{2003}y\u{3000}",
    "::",
    "a:b:c",
    "git version 2.43.0\n",
    "gitgit version version",
    "héllo wörld ☃",
];

fn strings(pieces: Vec<&[char]>) -> Vec<String> {
    pieces.into_iter().map(string_of).collect()
}

#[test]
fn white_space_is_unicode_white_space() {
    for n in 0..=0x10ffffu32 {
        if let Some(c) = char::from_u32(n) {
            assert_eq!(is_space(c), c.is_whitespace(), "{:x}", n);
        }
    }
}

#[test]
fn text_is_cut_as_the_standard_library_cuts_it() {
    for s in SAMPLES {
        let cs = chars_of(s);
        assert_eq!(strings(lines_of(&cs)), s.lines().map(String::from).collect::<Vec<_>>());
        assert_eq!(
            strings(words_of(&cs)),
            s.split_whitespace().map(String::from).collect::<Vec<_>>()
        );
        assert_eq!(
            strings(split_chars(&cs, Delimiter::Char(':'))),
            s.split(':').map(String::from).collect::<Vec<_>>()
        );
        assert_eq!(string_of(trim_chars(&cs)), s.trim());
        assert_eq!(
            string_of(trim_end_chars(&cs, Delimiter::Char('b'))),
            s.trim_end_matches('b')
        );
        for needle in ["", "a", "git version", "LISTENING", "\n", "xyz"] {
            assert_eq!(has_text(&cs, needle), s.contains(needle));
            assert_eq!(ends_with_text(&cs, needle), s.ends_with(needle));
            if !needle.is_empty() {
                assert_eq!(string_of(&without_text(&cs, needle)), s.replace(needle, ""));
            }
        }
    }
}

#[test]
fn pieces_join_to_the_text() {
    for s in SAMPLES {
        let cs = chars_of(s);
        let pieces = strings(split_chars(&cs, Delimiter::Char(' ')));
        assert_eq!(pieces.join(" "), s);
        assert!(pieces.iter().all(|p| !p.contains(' ')));
    }
}

#[test]
fn words_hold_no_white_space() {
    for s in SAMPLES {
        let cs = chars_of(s);
        assert!(strings(words_of(&cs))
            .iter()
            .all(|w| !w.is_empty() && !w.chars().any(char::is_whitespace)));
    }
}

#[test]
fn texts_are_compared_by_character() {
    assert!(same_text("abc", "abc"));
    assert!(!same_text("abc", "abd"));
    assert!(!same_text("abc", "ab"));
}

#[test]
fn numbers_are_read_as_the_standard_library_reads_them() {
    for s in [
        "", "+", "-", "0", "+7", "-0", "007", "65535", "65536", "4294967295", "4294967296",
        "18446744073709551615", "18446744073709551616", "000000000000000000000000000001", "1 ",
        "1e3", "٣", "99999999999999999999999999",
    ] {
        let cs = chars_of(s);
        assert_eq!(parse_u16(&cs), s.parse::<u16>().ok(), "{}", s);
        assert_eq!(parse_u32(&cs), s.parse::<u32>().ok(), "{}", s);
        assert_eq!(parse_number(&cs, u64::MAX), s.parse::<u64>().ok(), "{}", s);
    }
    assert_eq!(parse_number(&chars_of("11"), 10), None);
    assert_eq!(parse_number(&chars_of("10"), 10), Some(10));
}

#[test]
fn numbers_are_written_in_decimal_and_read_back() {
    for n in [0u64, 9, 10, 99, 100, 5173, 65535, 1_000_000_007, u64::MAX] {
        assert_eq!(decimal_text(n), n.to_string());
        assert_eq!(parse_number(&chars_of(&decimal_text(n)), u64::MAX), Some(n));
    }
}

#[test]
fn bytes_are_decoded() {
    assert_eq!(decode("héllo ☃".as_bytes()), "héllo ☃");
    assert_eq!(decode(&[0x61, 0xff, 0x62]), "a\u{fffd}b");
    assert_eq!(decode(&[]), "");
}

#[test]
fn utf16_units_are_decoded() {
    let units: Vec<u16> = "Überprüfung.exe".encode_utf16().collect();
    assert_eq!(decode_utf16(&units), "Überprüfung.exe");
    let units: Vec<u16> = "𝄞".encode_utf16().collect();
    assert_eq!(decode_utf16(&units), "𝄞");
    for units in [
        vec![],
        vec![0x61, 0xd800],
        vec![0xdc00, 0x61],
        vec![0xd800, 0x61],
        vec![0xd800, 0xd800, 0xdc00],
        vec![0xdbff, 0xdfff, 0xdfff, 0xdbff],
        vec![0xd7ff, 0xe000, 0xffff],
    ] {
        assert_eq!(decode_utf16(&units), String::from_utf16_lossy(&units));
    }
    assert_eq!(decode_utf16(&[0x61, 0xd800]), "a\u{fffd}");
    assert_eq!(decode_utf16(&[0xdbff, 0xdfff]), "\u{10ffff}");
}

#[test]
fn letters_become_lower_case() {
    assert_eq!(lower("NVIDIA GeForce 3070"), "nvidia geforce 3070");
    assert_eq!(lower("ÄRGER"), "ärger");
    assert_eq!(lower("PAC\u{212a}AGE"), "package");
}
