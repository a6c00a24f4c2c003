use remote_ssh::number::push_decimal;
use remote_ssh::number::push_hex;
use remote_ssh::number::read_u16;
use remote_ssh::order::sorted_order;
use remote_ssh::order::text_precedes;
use remote_ssh::text::char_is_space;
use remote_ssh::text::char_lower;
use remote_ssh::text::from_chars;
use remote_ssh::text::lowered;
use remote_ssh::text::split_lines;
use remote_ssh::text::split_words;
use remote_ssh::text::starts_with_text;
use remote_ssh::text::to_chars;
use remote_ssh::text::trimmed;

const SAMPLES: [&str; 14] = [
    "",
    " ",
    "a",
    "  a b  ",
    "\t\nHost prod\r\n",
    "\u{a0}x\u{3000}",
    "\u{85}\u{1680}y\u{2000}\u{200a}\u{2028}\u{2029}\u{202f}\u{205f}",
    "\u{200b}z\u{180e}",
    "line one\nline two\r\n\r\nlast\r",
    "\n\n",
    "no newline at end",
    "ends with newline\n",
    "\r\n\r",
    "a\r\r\nb",
];

fn text(v: &Vec<char>) -> String {
    from_chars(v)
}

#[test]
fn white_space_is_what_the_standard_library_says() {
    for n in 0..=0x10FFFFu32 {
        if let Some(c) = char::from_u32(n) {
            assert_eq!(char_is_space(c), c.is_whitespace(), "U+{n:04X}");
            assert_eq!(char_lower(c), c.to_ascii_lowercase(), "U+{n:04X}");
        }
    }
}

#[test]
fn trimming_is_what_the_standard_library_does() {
    for s in SAMPLES {
        assert_eq!(text(&trimmed(&to_chars(s))), s.trim(), "{s:?}");
    }
}

#[test]
fn words_are_what_the_standard_library_splits() {
    for s in SAMPLES {
        let words: Vec<String> = split_words(&to_chars(s)).iter().map(text).collect();
        let expected: Vec<String> = s.split_whitespace().map(|w| w.to_string()).collect();
        assert_eq!(words, expected, "{s:?}");
    }
}

#[test]
fn lines_are_what_the_standard_library_splits() {
    for s in SAMPLES {
        let lines: Vec<String> = split_lines(&to_chars(s)).iter().map(text).collect();
        let expected: Vec<String> = s.lines().map(|l| l.to_string()).collect();
        assert_eq!(lines, expected, "{s:?}");
    }
}

#[test]
fn lowering_touches_ascii_letters_only() {
    assert_eq!(text(&lowered(&to_chars("ControlPATH=\u{c4}Z"))), "controlpath=\u{c4}z");
}

#[test]
fn prefixes_are_found() {
    assert!(starts_with_text(&to_chars("controlpath=/x"), "controlpath"));
    assert!(starts_with_text(&to_chars("abc"), ""));
    assert!(!starts_with_text(&to_chars("contro"), "controlpath"));
    assert!(!starts_with_text(&to_chars("xcontrolpath"), "controlpath"));
}

#[test]
fn numbers_are_read_like_the_standard_library_reads_them() {
    for s in [
        "", "0", "7", "007", "+5", "+", "-0", "-1", "65535", "65536", "99999", "4294967296",
        "12a", "a12", " 12", "12 ", "1_000", "\u{663}", "+", "++1", "0000065535",
        "18446744073709551616",
    ] {
        assert_eq!(read_u16(&to_chars(s)), s.parse::<u16>().ok(), "{s:?}");
    }
}

#[test]
fn numbers_are_written_like_the_standard_library_writes_them() {
    for n in [0u64, 1, 9, 10, 99, 100, 300, 5173, 65535, 1_700_000_000_000, u64::MAX] {
        let mut decimal: Vec<char> = Vec::new();
        push_decimal(&mut decimal, n);
        assert_eq!(text(&decimal), n.to_string());
        let mut hex: Vec<char> = Vec::new();
        push_hex(&mut hex, n);
        assert_eq!(text(&hex), format!("{n:x}"));
    }
}

#[test]
fn order_of_texts_is_that_of_strings() {
    let samples = ["", "a", "A", "ab", "b", "prod", "prod-2", "*.dev", "\u{e9}", "z\u{10000}", "z"];
    for a in samples {
        for b in samples {
            assert_eq!(text_precedes(&to_chars(a), &to_chars(b)), a < b, "{a:?} {b:?}");
        }
    }
}

#[test]
fn sorting_is_stable() {
    let keys: Vec<String> = ["b", "a", "c", "a", "b", ""].iter().map(|s| s.to_string()).collect();
    assert_eq!(sorted_order(&keys), vec![5, 1, 3, 0, 4, 2]);
    assert_eq!(sorted_order(&Vec::new()), Vec::<usize>::new());
}
