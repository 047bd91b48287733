//! Decoding of result records.
//!
//! Each time the engine has something to report it hands over one record: a
//! result type and an array of tokens. [`AprilResult::decode`] turns such a
//! record into the one [`AprilResult`] that the session's handler receives.

use crate::error::ProtocolViolation;
use crate::flags::TokenFlags;
use crate::token::{RawToken, Token, TokenView};
use vstd::prelude::*;

verus! {

/// Result type of a record whose meaning is undefined.
pub const RESULT_UNKNOWN: u32 = 0;

/// Result type of a provisional transcript.
pub const RESULT_RECOGNITION_PARTIAL: u32 = 1;

/// Result type of a committed transcript.
pub const RESULT_RECOGNITION_FINAL: u32 = 2;

/// Result type of the report that the background worker fell behind.
pub const RESULT_ERROR_CANT_KEEP_UP: u32 = 3;

/// Result type of the report that a stretch of silence began.
pub const RESULT_SILENCE: u32 = 4;

/// What the engine reports to the handler of a session.
#[derive(Debug)]
pub enum AprilResult {
    /// A result without a defined meaning.
    Unknown,
    /// The internal audio buffer is full and the background worker cannot
    /// keep up. Results are unreliable until the next silence or final
    /// transcript.
    CantKeepUp,
    /// A provisional transcript. A later result for the same utterance holds
    /// much of the same text, updated.
    PartialRecognition(Vec<Token>),
    /// A committed transcript. Later results start from empty.
    FinalRecognition(Vec<Token>),
    /// There has been some silence. Reported once for each stretch.
    Silence,
}

/// What an [`AprilResult`] holds, as mathematical values.
pub enum AprilResultView {
    Unknown,
    CantKeepUp,
    PartialRecognition(Seq<TokenView>),
    FinalRecognition(Seq<TokenView>),
    Silence,
}

impl AprilResultView {
    /// The tokens of a transcript; no tokens for any other result.
    pub open spec fn tokens(self) -> Seq<TokenView> {
        match self {
            AprilResultView::PartialRecognition(tokens) => tokens,
            AprilResultView::FinalRecognition(tokens) => tokens,
            _ => Seq::empty(),
        }
    }
}

impl View for AprilResult {
    type V = AprilResultView;

    open spec fn view(&self) -> AprilResultView {
        match self {
            AprilResult::Unknown => AprilResultView::Unknown,
            AprilResult::CantKeepUp => AprilResultView::CantKeepUp,
            AprilResult::PartialRecognition(tokens) => AprilResultView::PartialRecognition(
                token_views(tokens@),
            ),
            AprilResult::FinalRecognition(tokens) => AprilResultView::FinalRecognition(
                token_views(tokens@),
            ),
            AprilResult::Silence => AprilResultView::Silence,
        }
    }
}

/// The views of a run of tokens.
pub open spec fn token_views(tokens: Seq<Token>) -> Seq<TokenView> {
    tokens.map_values(|token: Token| token@)
}

/// The result type is one of the five known ones.
pub open spec fn valid_result_type(result_type: u32) -> bool {
    result_type <= RESULT_SILENCE
}

/// Records of this type come with tokens: the two kinds of transcript.
pub open spec fn spec_carries_tokens(result_type: u32) -> bool {
    result_type == RESULT_RECOGNITION_PARTIAL || result_type == RESULT_RECOGNITION_FINAL
}

/// The record can be decoded: its type is known and, where it is a
/// transcript, each of its tokens is well formed. The tokens of any other
/// record are not looked at.
pub open spec fn decodable(result_type: u32, tokens: Seq<RawToken>) -> bool {
    &&& valid_result_type(result_type)
    &&& spec_carries_tokens(result_type) ==> forall|i: int|
        0 <= i < tokens.len() ==> (#[trigger] tokens[i]).well_formed()
}

/// `violation` is the first thing wrong with the record.
///
/// The type is looked at first, then the tokens of a transcript in their
/// order, and of each token its text before its flag.
pub open spec fn is_first_violation(
    result_type: u32,
    tokens: Seq<RawToken>,
    violation: ProtocolViolation,
) -> bool {
    match violation {
        ProtocolViolation::UnknownResultType => !valid_result_type(result_type),
        ProtocolViolation::InvalidTokenText { index } => {
            &&& spec_carries_tokens(result_type)
            &&& index < tokens.len()
            &&& !tokens[index as int].valid_text()
            &&& forall|i: int| 0 <= i < index ==> (#[trigger] tokens[i]).well_formed()
        },
        ProtocolViolation::UnknownTokenFlag { index } => {
            &&& spec_carries_tokens(result_type)
            &&& index < tokens.len()
            &&& tokens[index as int].valid_text()
            &&& !tokens[index as int].well_formed()
            &&& forall|i: int| 0 <= i < index ==> (#[trigger] tokens[i]).well_formed()
        },
    }
}

/// The tokens that a run of records stands for.
pub open spec fn decoded_tokens(tokens: Seq<RawToken>) -> Seq<TokenView> {
    tokens.map_values(|raw: RawToken| raw.decoded())
}

/// The result that a record stands for.
pub open spec fn decoded(result_type: u32, tokens: Seq<RawToken>) -> AprilResultView
    recommends
        decodable(result_type, tokens),
{
    if result_type == RESULT_RECOGNITION_PARTIAL {
        AprilResultView::PartialRecognition(decoded_tokens(tokens))
    } else if result_type == RESULT_RECOGNITION_FINAL {
        AprilResultView::FinalRecognition(decoded_tokens(tokens))
    } else if result_type == RESULT_ERROR_CANT_KEEP_UP {
        AprilResultView::CantKeepUp
    } else if result_type == RESULT_SILENCE {
        AprilResultView::Silence
    } else {
        AprilResultView::Unknown
    }
}

/// Tells whether records of this type come with tokens. Only then is the
/// token array of a record read.
#[verifier::when_used_as_spec(spec_carries_tokens)]
pub fn carries_tokens(result_type: u32) -> (b: bool)
    ensures
        b == spec_carries_tokens(result_type),
{
    result_type == RESULT_RECOGNITION_PARTIAL || result_type == RESULT_RECOGNITION_FINAL
}

/// Looks for what is wrong with a record.
///
/// Returns `None` exactly for the records that [`AprilResult::decode`]
/// takes. For any other record it names the first violation, in the order in
/// which decoding would meet them.
pub fn find_violation(result_type: u32, tokens: &Vec<RawToken>) -> (found: Option<
    ProtocolViolation,
>)
    ensures
        found is None <==> decodable(result_type, tokens@),
        found matches Some(violation) ==> is_first_violation(result_type, tokens@, violation),
{
    if result_type > RESULT_SILENCE {
        return Some(ProtocolViolation::UnknownResultType);
    }
    if !carries_tokens(result_type) {
        return None;
    }
    let mut index: usize = 0;
    while index < tokens.len()
        invariant
            index <= tokens.len(),
            valid_result_type(result_type),
            spec_carries_tokens(result_type),
            forall|i: int| 0 <= i < index ==> (#[trigger] tokens@[i]).well_formed(),
        decreases tokens.len() - index,
    {
        if !tokens[index].has_valid_text() {
            return Some(ProtocolViolation::InvalidTokenText { index });
        }
        if !TokenFlags::is_valid_bits(tokens[index].flags) {
            return Some(ProtocolViolation::UnknownTokenFlag { index });
        }
        index += 1;
    }
    None
}

impl AprilResult {
    /// Decodes one record of the engine into the result it stands for.
    ///
    /// A transcript holds one token for each token of the record, in the
    /// record's order. The engine is not expected to report a transcript
    /// without tokens; one that comes all the same is passed on as it is,
    /// empty. The tokens of any other record are not looked at.
    pub fn decode(result_type: u32, tokens: &Vec<RawToken>) -> (result: AprilResult)
        requires
            decodable(result_type, tokens@),
        ensures
            result@ == decoded(result_type, tokens@),
    {
        if result_type == RESULT_RECOGNITION_PARTIAL {
            AprilResult::PartialRecognition(decode_tokens(tokens))
        } else if result_type == RESULT_RECOGNITION_FINAL {
            AprilResult::FinalRecognition(decode_tokens(tokens))
        } else if result_type == RESULT_ERROR_CANT_KEEP_UP {
            AprilResult::CantKeepUp
        } else if result_type == RESULT_SILENCE {
            AprilResult::Silence
        } else {
            AprilResult::Unknown
        }
    }
}

/// Forwards one record of the engine to the handler of a session.
///
/// The record is decoded into the one result it stands for, and the handler
/// is called with it once, before this function returns.
pub fn handler_wrapper<H: Fn(AprilResult)>(handler: H, result_type: u32, tokens: &Vec<RawToken>)
    requires
        decodable(result_type, tokens@),
        forall|result: AprilResult|
            result@ == decoded(result_type, tokens@) ==> call_requires(handler, (result,)),
    ensures
        exists|result: AprilResult|
            result@ == decoded(result_type, tokens@) && #[trigger] call_ensures(
                handler,
                (result,),
                (),
            ),
{
    let result = AprilResult::decode(result_type, tokens);
    handler(result);
}

/// Decodes the tokens of a transcript, one by one and in their order.
fn decode_tokens(tokens: &Vec<RawToken>) -> (decoded: Vec<Token>)
    requires
        forall|i: int| 0 <= i < tokens.len() ==> (#[trigger] tokens@[i]).well_formed(),
    ensures
        token_views(decoded@) == decoded_tokens(tokens@),
{
    let mut decoded: Vec<Token> = Vec::new();
    let mut index: usize = 0;
    while index < tokens.len()
        invariant
            index <= tokens.len(),
            decoded.len() == index,
            forall|i: int| 0 <= i < tokens.len() ==> (#[trigger] tokens@[i]).well_formed(),
            forall|i: int| 0 <= i < index ==> (#[trigger] decoded@[i])@ == tokens@[i].decoded(),
        decreases tokens.len() - index,
    {
        decoded.push(Token::from_raw(&tokens[index]));
        index += 1;
    }
    decoded
}

/// The timestamps of a run of tokens never go back.
pub open spec fn time_ordered(tokens: Seq<TokenView>) -> bool {
    forall|i: int, j: int| 0 <= i <= j < tokens.len() ==> tokens[i].time_ms <= tokens[j].time_ms
}

/// The timestamps of a run of records never go back.
pub open spec fn record_time_ordered(tokens: Seq<RawToken>) -> bool {
    forall|i: int, j: int| 0 <= i <= j < tokens.len() ==> tokens[i].time_ms <= tokens[j].time_ms
}

/// At most one violation is the first of a record, and a record that has one
/// cannot be decoded: [`find_violation`] has one answer for each record.
pub proof fn lemma_first_violation_is_unique(
    result_type: u32,
    tokens: Seq<RawToken>,
    one: ProtocolViolation,
    other: ProtocolViolation,
)
    requires
        is_first_violation(result_type, tokens, one),
        is_first_violation(result_type, tokens, other),
    ensures
        one == other,
        !decodable(result_type, tokens),
{
}

/// A result that is no transcript holds no tokens, whatever came with its
/// record.
pub proof fn lemma_only_transcripts_hold_tokens(result_type: u32, tokens: Seq<RawToken>)
    requires
        decodable(result_type, tokens),
        !spec_carries_tokens(result_type),
    ensures
        decoded(result_type, tokens).tokens().len() == 0,
{
}

/// Decoding a transcript keeps the tokens in the order of the record and
/// their timestamps as they are. So the timestamps of the result never go
/// back exactly if those of the record never do.
pub proof fn lemma_decode_keeps_timestamps(result_type: u32, tokens: Seq<RawToken>)
    requires
        decodable(result_type, tokens),
        spec_carries_tokens(result_type),
    ensures
        decoded(result_type, tokens).tokens().len() == tokens.len(),
        forall|i: int|
            0 <= i < tokens.len() ==> #[trigger] decoded(result_type, tokens).tokens()[i].time_ms
                == tokens[i].time_ms,
        time_ordered(decoded(result_type, tokens).tokens()) <==> record_time_ordered(tokens),
{
    let out = decoded(result_type, tokens).tokens();
    assert forall|i: int| 0 <= i < tokens.len() implies #[trigger] out[i].time_ms
        == tokens[i].time_ms by {
        assert(out[i] == tokens[i].decoded());
    }
    if record_time_ordered(tokens) {
        assert forall|i: int, j: int| 0 <= i <= j < out.len() implies out[i].time_ms
            <= out[j].time_ms by {
            assert(tokens[i].time_ms <= tokens[j].time_ms);
        }
    }
    if time_ordered(out) {
        assert forall|i: int, j: int| 0 <= i <= j < tokens.len() implies tokens[i].time_ms
            <= tokens[j].time_ms by {
            assert(out[i].time_ms <= out[j].time_ms);
        }
    }
}

} // verus!
