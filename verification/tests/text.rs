use april_asr::text::{decode_text, is_text};

#[test]
fn plain_text_is_read_as_it_is() {
    assert_eq!(decode_text(b"English"), Some("English".to_string()));
    assert_eq!(decode_text(b" hello"), Some(" hello".to_string()));
    assert!(is_text(b"English"));
}

#[test]
fn empty_text_is_a_text() {
    assert_eq!(decode_text(b""), Some(String::new()));
    assert!(is_text(b""));
}

#[test]
fn text_of_several_bytes_a_character_is_decoded() {
    let bytes = [0x67, 0x72, 0xc3, 0xbc, 0xc3, 0x9f, 0x20, 0xe4, 0xb8, 0x96, 0xf0, 0x9f, 0x8e, 0xa4];
    let text = decode_text(&bytes).unwrap();
    assert_eq!(text, "gr\u{fc}\u{df} \u{4e16}\u{1f3a4}");
    assert_eq!(text.chars().count(), 7);
    assert_eq!(text.as_bytes(), &bytes);
}

#[test]
fn bytes_that_are_not_utf8_are_no_text() {
    let broken: [&[u8]; 7] = [
        &[0xff],
        &[0x80],
        &[0xc3],
        &[0xc0, 0xaf],
        &[0xe0, 0x80, 0xaf],
        &[0xed, 0xa0, 0x80],
        &[0xf4, 0x90, 0x80, 0x80],
    ];
    for bytes in broken {
        assert_eq!(decode_text(bytes), None);
        assert!(!is_text(bytes));
    }
}

#[test]
fn text_broken_at_its_end_is_no_text() {
    assert_eq!(decode_text(&[0x6f, 0x6b, 0xe2, 0x82]), None);
    assert_eq!(decode_text(&[0x6f, 0x6b, 0xe2, 0x82, 0xac]), Some("ok\u{20ac}".to_string()));
}
