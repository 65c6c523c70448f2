use coverage_http::text::{
    concat_texts, concat_three, decimal_text, parse_u16, replace_text, show_bytes,
    signed_decimal_text, text_bytes, trim_text, white_space,
};

#[test]
fn numbers_are_written_in_decimal() {
    for n in [0u64, 1, 9, 10, 42, 99, 100, 65535, 1_700_000_000_000_000_000, u64::MAX] {
        assert_eq!(decimal_text(n), n.to_string());
    }
}

#[test]
fn signed_numbers_are_written_in_decimal() {
    for n in [0i64, -1, 7, -10, i64::MAX, i64::MIN] {
        assert_eq!(signed_decimal_text(n), n.to_string());
    }
}

#[test]
fn texts_are_joined() {
    assert_eq!(concat_texts("a", "é"), "aé");
    assert_eq!(concat_three("", "b", "c"), "bc");
    assert_eq!(text_bytes("aé"), vec![0x61, 0xc3, 0xa9]);
}

#[test]
fn white_space_is_that_of_unicode() {
    for code in 0..=0x10ffffu32 {
        if let Some(c) = char::from_u32(code) {
            assert_eq!(white_space(c), c.is_whitespace(), "{:x}", code);
        }
    }
}

#[test]
fn white_space_goes_from_both_ends() {
    for text in ["", " ", "\n\t ", "pod", " pod", "pod\r\n", "\u{3000} a b \u{85}\u{a0}", "é "] {
        assert_eq!(trim_text(text), text.trim());
    }
}

#[test]
fn occurrences_are_replaced() {
    for (text, from, to) in [
        ("llvm-cov", "llvm-", "rust-"),
        ("llvm-llvm-profdata", "llvm-", "rust-"),
        ("aaaa", "aa", "b"),
        ("aaa", "aa", ""),
        ("", "x", "y"),
        ("cov", "llvm-", "rust-"),
        ("xéx", "é", "ee"),
    ] {
        assert_eq!(replace_text(text, from, to), text.replace(from, to));
    }
}

#[test]
fn ports_are_read_as_std_reads_them() {
    for text in [
        "", "+", "-", "0", "-0", "+0", "8000", "+8000", "65535", "65536", "0065535", "99999999999999",
        " 80", "80 ", "8_0", "8a", "a8", "++8", "\u{663}", "53700",
    ] {
        assert_eq!(parse_u16(text), text.parse::<u16>().ok(), "{:?}", text);
    }
}

#[test]
fn every_port_is_read_back() {
    for port in 0..=u16::MAX {
        assert_eq!(parse_u16(&decimal_text(port as u64)), Some(port));
    }
}

#[test]
fn bytes_are_shown_as_text() {
    assert_eq!(show_bytes(&"pod é".as_bytes().to_vec()), "pod é");
    assert_eq!(show_bytes(&vec![0x61, 0xff, 0x62]), "a\u{fffd}b");
    assert_eq!(show_bytes(&Vec::new()), "");
}
