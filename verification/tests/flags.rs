use april_asr::flags::{TOKEN_FLAG_SENTENCE_END_BIT, TOKEN_FLAG_WORD_BOUNDARY_BIT};
use april_asr::{SessionFlags, TokenFlags};

#[test]
fn session_flags_have_their_wire_codes() {
    assert_eq!(SessionFlags::SYNC.bits(), 0);
    assert_eq!(SessionFlags::ASYNC_REALTIME.bits(), 1);
    assert_eq!(SessionFlags::ASYNC_NON_REALTIME.bits(), 2);
}

#[test]
fn session_flags_convert_into_their_wire_codes() {
    let sync: u32 = SessionFlags::SYNC.into();
    let realtime: u32 = SessionFlags::ASYNC_REALTIME.into();
    let non_realtime: u32 = u32::from(SessionFlags::ASYNC_NON_REALTIME);
    assert_eq!(sync, 0);
    assert_eq!(realtime, 1);
    assert_eq!(non_realtime, 2);
}

#[test]
fn session_flags_have_distinct_wire_codes() {
    let modes = [
        SessionFlags::SYNC,
        SessionFlags::ASYNC_REALTIME,
        SessionFlags::ASYNC_NON_REALTIME,
    ];
    for (i, a) in modes.iter().enumerate() {
        for (j, b) in modes.iter().enumerate() {
            assert_eq!(a.bits() == b.bits(), i == j);
        }
    }
}

#[test]
fn token_flag_codes_are_the_two_lowest_bits() {
    assert_eq!(TOKEN_FLAG_WORD_BOUNDARY_BIT, 0x0000_0001);
    assert_eq!(TOKEN_FLAG_SENTENCE_END_BIT, 0x0000_0002);
}

#[test]
fn token_flag_decodes_word_boundary() {
    assert!(TokenFlags::is_valid_bits(1));
    assert_eq!(TokenFlags::from_bits(1), TokenFlags::WordBoundary);
}

#[test]
fn token_flag_decodes_sentence_end() {
    assert!(TokenFlags::is_valid_bits(2));
    assert_eq!(TokenFlags::from_bits(2), TokenFlags::SentenceEnd);
}

#[test]
fn token_flag_rejects_every_other_code() {
    assert!(!TokenFlags::is_valid_bits(0));
    assert!(!TokenFlags::is_valid_bits(3));
    assert!(!TokenFlags::is_valid_bits(4));
    assert!(!TokenFlags::is_valid_bits(0x8000_0000));
    assert!(!TokenFlags::is_valid_bits(u32::MAX));
}
