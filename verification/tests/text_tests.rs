use hidden_photos::text::{bytes_eq_ignore_ascii_case, decimal, is_blank, is_whitespace};

#[test]
fn decimal_renders_like_display() {
    for v in [0, 7, 10, 18, 100_000, -1, -42, i32::MAX, i32::MIN] {
        assert_eq!(decimal(v), v.to_string());
    }
}

#[test]
fn ascii_case_insensitive_comparison() {
    assert!(bytes_eq_ignore_ascii_case(b"Format_Label", b"format_label"));
    assert!(bytes_eq_ignore_ascii_case(b"", b""));
    assert!(!bytes_eq_ignore_ascii_case(b"inode", b"inodes"));
    assert!(!bytes_eq_ignore_ascii_case(b"a[", b"A{"));
    assert!(!bytes_eq_ignore_ascii_case("É".as_bytes(), "é".as_bytes()));
}

#[test]
fn blank_text_matches_trim() {
    for s in ["", "   ", "\n\t  \r", "\u{3000}\u{00A0}", " x ", "\n SELECT 1;", "\u{200B}"] {
        assert_eq!(is_blank(s), s.trim().is_empty(), "{:?}", s);
    }
}

#[test]
fn whitespace_matches_char_is_whitespace() {
    for u in 0u32..0x3100 {
        if let Some(c) = char::from_u32(u) {
            assert_eq!(is_whitespace(c), c.is_whitespace(), "{:#x}", u);
        }
    }
}
