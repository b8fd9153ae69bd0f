use jstar::text::{find_nul, is_nul_free, is_text, CText};

#[test]
fn find_nul_gives_the_first_terminator() {
    assert_eq!(find_nul(b"ab\0cd\0"), Some(2));
    assert_eq!(find_nul(b"\0"), Some(0));
    assert_eq!(find_nul(b"abc\0"), Some(3));
}

#[test]
fn find_nul_gives_none_without_terminator() {
    assert_eq!(find_nul(b""), None);
    assert_eq!(find_nul(b"<string>"), None);
}

#[test]
fn is_nul_free_agrees_with_find_nul() {
    assert!(is_nul_free(b"var x = 42"));
    assert!(is_nul_free(b""));
    assert!(!is_nul_free(b"var x\0 = 42"));
}

#[test]
fn ctext_keeps_clean_bytes() {
    let text = CText::new(b"<test>".to_vec()).unwrap();
    assert_eq!(text.as_bytes(), b"<test>");
    assert_eq!(text.len(), 6);
    assert_eq!(text.into_bytes(), b"<test>".to_vec());
}

#[test]
fn ctext_refuses_embedded_terminator() {
    assert!(CText::new(b"a\0b".to_vec()).is_none());
    assert!(CText::new(vec![0u8]).is_none());
    assert!(CText::from_text("path\0").is_none());
}

#[test]
fn ctext_from_text_keeps_the_encoding() {
    let text = CText::from_text("h\u{e9}llo").unwrap();
    assert_eq!(text.as_bytes(), &[0x68u8, 0xc3, 0xa9, 0x6c, 0x6c, 0x6f]);
    assert_eq!(text.len(), 6);
}

#[test]
fn is_text_accepts_utf8_only() {
    assert!(is_text(b"<string>"));
    assert!(is_text("h\u{e9}llo".as_bytes()));
    assert!(is_text(b""));
    assert!(!is_text(&[0xffu8, 0xfe]));
    assert!(!is_text(&[0xc3u8]));
}
