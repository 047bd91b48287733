//! Tokens: the record the engine hands over, and the token a handler sees.

use crate::flags::TokenFlags;
use crate::text::{decode_text, is_text};
use vstd::prelude::*;
use vstd::utf8::{decode_utf8, valid_utf8};

verus! {

/// One token as the engine hands it over, field by field.
///
/// Nothing in it has been checked yet: the text is a run of bytes and the
/// flag an integer.
#[derive(Debug)]
pub struct RawToken {
    /// The bytes of the token's text, without the terminating zero.
    pub token: Vec<u8>,
    /// The bit pattern of the token's log probability, a 32-bit IEEE 754
    /// number.
    pub logprob_bits: u32,
    /// The code of the token's flag.
    pub flags: u32,
    /// The millisecond of fed audio at which the token was emitted.
    pub time_ms: usize,
}

/// A single word piece or punctuation mark that the engine recognised.
#[derive(Debug)]
pub struct Token {
    /// The text. It carries its own formatting: a leading space starts a new
    /// word, no leading space continues the word before.
    pub token: String,
    /// The bit pattern of the log probability of this token being the right
    /// one, a 32-bit IEEE 754 number.
    pub logprob_bits: u32,
    /// What kind of token this is.
    pub flags: TokenFlags,
    /// The millisecond at which the token was emitted. Time counts the audio
    /// that was fed, not the clock.
    pub time_ms: usize,
}

/// What a [`Token`] holds, as mathematical values.
pub struct TokenView {
    /// The characters of the text.
    pub token: Seq<char>,
    /// The bit pattern of the log probability.
    pub logprob_bits: u32,
    /// The kind of token.
    pub flags: TokenFlags,
    /// The millisecond of fed audio at which the token was emitted.
    pub time_ms: usize,
}

impl View for Token {
    type V = TokenView;

    open spec fn view(&self) -> TokenView {
        TokenView {
            token: self.token@,
            logprob_bits: self.logprob_bits,
            flags: self.flags,
            time_ms: self.time_ms,
        }
    }
}

impl RawToken {
    /// The text is UTF-8.
    pub open spec fn valid_text(self) -> bool {
        valid_utf8(self.token@)
    }

    /// The record can be decoded: its text is UTF-8 and its flag is known.
    pub open spec fn well_formed(self) -> bool {
        self.valid_text() && TokenFlags::valid_bits(self.flags)
    }

    /// The token this record stands for.
    pub open spec fn decoded(self) -> TokenView
        recommends
            self.well_formed(),
    {
        TokenView {
            token: decode_utf8(self.token@),
            logprob_bits: self.logprob_bits,
            flags: TokenFlags::spec_from_bits(self.flags),
            time_ms: self.time_ms,
        }
    }

    /// Tells whether the text is UTF-8.
    pub fn has_valid_text(&self) -> (ok: bool)
        ensures
            ok == self.valid_text(),
    {
        is_text(self.token.as_slice())
    }

    /// Tells whether the record can be decoded.
    pub fn is_well_formed(&self) -> (ok: bool)
        ensures
            ok == self.well_formed(),
    {
        self.has_valid_text() && TokenFlags::is_valid_bits(self.flags)
    }
}

impl Token {
    /// Decodes one record of the engine.
    ///
    /// The text is read as UTF-8, the flag is decoded, and the log
    /// probability and the time are taken over as they are.
    pub fn from_raw(raw: &RawToken) -> (token: Token)
        requires
            raw.well_formed(),
        ensures
            token@ == raw.decoded(),
    {
        Token {
            token: decode_text(raw.token.as_slice()).unwrap(),
            logprob_bits: raw.logprob_bits,
            flags: TokenFlags::from_bits(raw.flags),
            time_ms: raw.time_ms,
        }
    }
}

} // verus!
