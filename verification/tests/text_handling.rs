use linux_desktop_manager::number::{decimal_text, hex_text, parse_number};
use linux_desktop_manager::text::{
    after, chars_of, contains, ends_with, is_whitespace, key_value, lines, same_text, starts_with,
    trim,
};

const SAMPLES: [&str; 16] = [
    "",
    " ",
    "\n",
    "\r\n",
    "\n\n",
    "a",
    "a\n",
    "a\r\nb",
    "a\rb\r",
    "a\r\r\nb\n\nc",
    "  lead",
    "trail \t\n",
    "\u{3000}wide\u{a0}",
    "\u{200b}zero width\u{200b}",
    "größe\n日本\r\n",
    "Session=gnome",
];

#[test]
fn white_space_is_that_of_unicode() {
    for n in 0..=0x10ffffu32 {
        if let Some(c) = char::from_u32(n) {
            assert_eq!(is_whitespace(c), c.is_whitespace(), "{:?}", c);
        }
    }
}

#[test]
fn trimming_drops_white_space_at_both_ends() {
    for s in SAMPLES {
        assert_eq!(trim(s), s.trim());
    }
    assert_eq!(trim("\u{3000}wide\u{a0}"), "wide");
    assert_eq!(trim(" a b "), "a b");
}

#[test]
fn lines_end_at_line_feeds() {
    for s in SAMPLES {
        let expected: Vec<String> = s.lines().map(|l| l.to_string()).collect();
        assert_eq!(lines(s), expected);
    }
    assert_eq!(lines("a\r\r\nb\n\nc"), vec!["a\r", "b", "", "c"]);
    assert_eq!(lines("a\r"), vec!["a\r"]);
}

#[test]
fn prefixes_suffixes_and_parts() {
    for s in SAMPLES {
        for p in ["", "a", "Session=", "größe", "b", "\n", "gnome"] {
            assert_eq!(starts_with(s, p), s.starts_with(p));
            assert_eq!(ends_with(s, p), s.ends_with(p));
            assert_eq!(contains(s, p), s.contains(p));
            assert_eq!(same_text(s, p), s == p);
        }
    }
    assert!(contains("xauth:  file .Xauthority does not exist\n", "does not exist"));
    assert!(!contains("does not", "does not exist"));
    assert_eq!(after("größe", 3), "ße");
    assert_eq!(chars_of("aß"), vec!['a', 'ß']);
}

#[test]
fn value_stands_between_the_first_two_equal_signs() {
    assert_eq!(key_value("Session=gnome"), Some("gnome".to_string()));
    assert_eq!(key_value("Session=a=b"), Some("a".to_string()));
    assert_eq!(key_value("Session="), Some("".to_string()));
    assert_eq!(key_value("=="), Some("".to_string()));
    assert_eq!(key_value("Session"), None);
    for s in ["a=b=c", "x", "", "=y", "k=v"] {
        assert_eq!(key_value(s).as_deref(), s.split('=').nth(1));
    }
}

#[test]
fn numbers_are_read_as_unsigned_32_bit() {
    let samples = [
        "", "+", "-", "0", "+0", "-0", "1", "007", "+12", "++1", "1+", " 1", "1 ", "12a",
        "4294967295", "4294967296", "99999999999999999999999", "0000000000000000000000005", "١",
    ];
    for s in samples {
        assert_eq!(parse_number(s), s.parse::<u32>().ok(), "{:?}", s);
    }
    assert_eq!(parse_number("4294967295"), Some(4294967295));
    assert_eq!(parse_number("4294967296"), None);
}

#[test]
fn numbers_are_written_in_decimal() {
    for n in [0, 1, 9, 10, 51, 1000, 65535, 4294967295, u64::MAX] {
        assert_eq!(decimal_text(n), n.to_string());
    }
}

#[test]
fn written_numbers_are_read_back() {
    for n in [0, 1, 10, 1000, 65534, u32::MAX] {
        assert_eq!(parse_number(&decimal_text(n as u64)), Some(n));
    }
}

#[test]
fn bytes_are_written_in_hexadecimal() {
    assert_eq!(hex_text(&vec![]), "");
    assert_eq!(hex_text(&vec![0x00, 0x0f, 0xa0, 0xff]), "000fa0ff");
    for b in 0..=255u8 {
        assert_eq!(hex_text(&vec![b]), format!("{:02x}", b));
    }
}
