use jstar::string::{bytes_eq, String};

#[test]
fn string_view_equals_its_content() {
    let stored = b"test".to_vec();
    let s = String::new(&stored);
    assert!(s.eq_str("test"));
    assert!(s.eq_bytes(b"test"));
}

#[test]
fn as_bytes_gives_the_content() {
    let stored = [0u8, 159, 146, 150];
    let s = String::new(&stored);
    assert_eq!(s.as_bytes(), &[0u8, 159, 146, 150]);
    assert_eq!(s.len(), 4);
}

#[test]
fn as_str_reads_valid_text() {
    let stored = "World!".as_bytes().to_vec();
    let s = String::new(&stored);
    assert_eq!(s.as_str().unwrap(), "World!");
}

#[test]
fn as_str_refuses_invalid_text() {
    let stored = [0u8, 159, 146, 150];
    let s = String::new(&stored);
    let err = s.as_str().unwrap_err();
    assert_eq!(err.valid_up_to(), 1);
}

#[test]
fn equality_is_by_content() {
    let a = b"same".to_vec();
    let b = b"same".to_vec();
    let c = b"other".to_vec();
    assert!(String::new(&a) == String::new(&b));
    assert!(String::new(&a) != String::new(&c));
    assert!(!String::new(&a).eq_bytes(b"sam"));
    assert!(!String::new(&a).eq_bytes(b"samE"));
    assert!(!String::new(&a).eq_str("same "));
}

#[test]
fn bytes_eq_compares_every_byte() {
    assert!(bytes_eq(b"", b""));
    assert!(bytes_eq(b"abc", b"abc"));
    assert!(!bytes_eq(b"abc", b"abd"));
    assert!(!bytes_eq(b"abc", b"xbc"));
    assert!(!bytes_eq(b"abc", b"ab"));
    assert!(!bytes_eq(b"", b"a"));
}

#[test]
fn to_vec_copies_the_content() {
    let stored = b"string from rust".to_vec();
    let owned = String::new(&stored).to_vec();
    assert_eq!(owned, b"string from rust".to_vec());
}

#[test]
fn to_text_copies_valid_text() {
    let stored = "string from rust".as_bytes().to_vec();
    let owned = String::new(&stored).to_text().unwrap();
    assert_eq!(owned, "string from rust");
}

#[test]
fn to_text_refuses_invalid_text() {
    let stored = [0xffu8];
    assert!(String::new(&stored).to_text().is_err());
}
