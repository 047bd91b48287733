//! Processing modes and token flags, and the integer codes the engine uses
//! for them.

use vstd::prelude::*;

verus! {

/// Wire code of the flag that marks the start of a new word.
pub const TOKEN_FLAG_WORD_BOUNDARY_BIT: u32 = 1;

/// Wire code of the flag that marks the end of a sentence.
pub const TOKEN_FLAG_SENTENCE_END_BIT: u32 = 2;

/// How a session processes the audio it is fed.
#[allow(non_camel_case_types)]
#[derive(Debug, Clone, Copy, PartialEq, Eq, Structural)]
pub enum SessionFlags {
    /// Audio is processed inline: the handler may run before a feed returns,
    /// on the caller's thread.
    SYNC,
    /// Audio is queued and drained by a background worker, which is expected
    /// to be fed in real time. Under load the engine speeds the audio up and
    /// accuracy may drop.
    ASYNC_REALTIME,
    /// Audio is queued and drained by a background worker without loss of
    /// accuracy. A worker that falls behind reports
    /// [`AprilResult::CantKeepUp`](crate::dispatch::AprilResult::CantKeepUp).
    ASYNC_NON_REALTIME,
}

impl SessionFlags {
    /// The code the engine's configuration record carries for this mode.
    pub open spec fn spec_bits(self) -> u32 {
        match self {
            SessionFlags::SYNC => 0,
            SessionFlags::ASYNC_REALTIME => 1,
            SessionFlags::ASYNC_NON_REALTIME => 2,
        }
    }

    /// The code the engine's configuration record carries for this mode.
    #[verifier::when_used_as_spec(spec_bits)]
    pub fn bits(self) -> (code: u32)
        ensures
            code == self.spec_bits(),
    {
        match self {
            SessionFlags::SYNC => 0,
            SessionFlags::ASYNC_REALTIME => 1,
            SessionFlags::ASYNC_NON_REALTIME => 2,
        }
    }
}

impl From<SessionFlags> for u32 {
    fn from(value: SessionFlags) -> (code: u32) {
        value.bits()
    }
}

impl vstd::std_specs::convert::FromSpecImpl<SessionFlags> for u32 {
    open spec fn obeys_from_spec() -> bool {
        true
    }

    open spec fn from_spec(value: SessionFlags) -> u32 {
        value.spec_bits()
    }
}

/// What kind of token the engine returned.
#[derive(Debug, Clone, Copy, PartialEq, Eq, Structural)]
pub enum TokenFlags {
    /// The token starts a new word.
    WordBoundary,
    /// The token ends a sentence: it is ".", "!" or "?".
    SentenceEnd,
}

impl TokenFlags {
    /// Whether `bits` is one of the two codes the engine sets on a token.
    pub open spec fn valid_bits(bits: u32) -> bool {
        bits == TOKEN_FLAG_WORD_BOUNDARY_BIT || bits == TOKEN_FLAG_SENTENCE_END_BIT
    }

    /// The flag that `bits` stands for.
    pub open spec fn spec_from_bits(bits: u32) -> TokenFlags
        recommends
            Self::valid_bits(bits),
    {
        if bits == TOKEN_FLAG_WORD_BOUNDARY_BIT {
            TokenFlags::WordBoundary
        } else {
            TokenFlags::SentenceEnd
        }
    }

    /// Tells whether `bits` is one of the two codes the engine sets on a
    /// token. Any other value means that the engine and this library do not
    /// agree on the interface.
    pub fn is_valid_bits(bits: u32) -> (ok: bool)
        ensures
            ok == Self::valid_bits(bits),
    {
        bits == TOKEN_FLAG_WORD_BOUNDARY_BIT || bits == TOKEN_FLAG_SENTENCE_END_BIT
    }

    /// Decodes the flag of a token.
    pub fn from_bits(bits: u32) -> (flag: TokenFlags)
        requires
            Self::valid_bits(bits),
        ensures
            flag == Self::spec_from_bits(bits),
            bits == TOKEN_FLAG_WORD_BOUNDARY_BIT <==> flag == TokenFlags::WordBoundary,
            bits == TOKEN_FLAG_SENTENCE_END_BIT <==> flag == TokenFlags::SentenceEnd,
    {
        if bits == TOKEN_FLAG_WORD_BOUNDARY_BIT {
            TokenFlags::WordBoundary
        } else {
            TokenFlags::SentenceEnd
        }
    }
}

} // verus!
