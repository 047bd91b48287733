use april_asr::{RawToken, Token, TokenFlags};

fn raw(text: &[u8], logprob: f32, flags: u32, time_ms: usize) -> RawToken {
    RawToken {
        token: text.to_vec(),
        logprob_bits: logprob.to_bits(),
        flags,
        time_ms,
    }
}

#[test]
fn token_takes_over_every_field_of_its_record() {
    let record = raw(b" hello", -0.25, 1, 120);
    assert!(record.is_well_formed());
    let token = Token::from_raw(&record);
    assert_eq!(token.token, " hello");
    assert_eq!(f32::from_bits(token.logprob_bits), -0.25);
    assert_eq!(token.logprob_bits, 0xbe80_0000);
    assert_eq!(token.flags, TokenFlags::WordBoundary);
    assert_eq!(token.time_ms, 120);
}

#[test]
fn token_keeps_the_formatting_of_its_text() {
    let start = Token::from_raw(&raw(b" wor", -1.0, 1, 0));
    let rest = Token::from_raw(&raw(b"ld", -1.0, 1, 40));
    let end = Token::from_raw(&raw(b".", -1.0, 2, 80));
    assert_eq!(start.token, " wor");
    assert_eq!(rest.token, "ld");
    assert_eq!(end.token, ".");
    assert_eq!(end.flags, TokenFlags::SentenceEnd);
}

#[test]
fn token_text_is_read_as_utf8() {
    let record = raw(&[0x20, 0xc3, 0xa9, 0x74, 0xc3, 0xa9, 0xe2, 0x82, 0xac], -2.5, 1, 7);
    assert!(record.has_valid_text());
    let token = Token::from_raw(&record);
    assert_eq!(token.token, " \u{e9}t\u{e9}\u{20ac}");
    assert_eq!(token.token.chars().count(), 5);
}

#[test]
fn token_text_may_be_empty() {
    let record = raw(b"", 0.0, 1, 0);
    assert!(record.is_well_formed());
    assert_eq!(Token::from_raw(&record).token, "");
}

#[test]
fn record_with_broken_text_is_not_well_formed() {
    for text in [&[0xff_u8][..], &[0xc3][..], &[0x61, 0x80][..], &[0xed, 0xa0, 0x80][..]] {
        let record = raw(text, -1.0, 1, 0);
        assert!(!record.has_valid_text());
        assert!(!record.is_well_formed());
    }
}

#[test]
fn record_with_unknown_flag_is_not_well_formed() {
    for flags in [0_u32, 3, 4, 255, u32::MAX] {
        let record = raw(b" ok", -1.0, flags, 0);
        assert!(record.has_valid_text());
        assert!(!record.is_well_formed());
    }
}

#[test]
fn token_time_covers_the_whole_range() {
    let token = Token::from_raw(&raw(b"x", -1.0, 2, usize::MAX));
    assert_eq!(token.time_ms, usize::MAX);
}
