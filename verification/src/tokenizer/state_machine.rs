//! The mathematical model of the tokenizer.
//!
//! `TokModel` captures every byte-relevant part of the tokenizer's
//! state, including the sequence of lexical units emitted so far, and
//! `spec_step` is the pure transition function: one step per input
//! byte, plus one final step for the end-of-input sentinel.  The
//! executable state machine is proved to follow `spec_step` exactly,
//! so properties of whole runs — above all that chunk boundaries
//! cannot be observed — are theorems about `spec_run`.
//!
//! A step never reads the input buffer; everything it needs (the
//! current byte, the accumulated, case-folded name bytes) is part of
//! the model.  That locality is what makes chunked and unchunked runs
//! coincide.

use crate::tokenizer::lex_unit::{AttributeView, SliceRange, UnitModel};
use crate::tokenizer::tag_name::name_hash;
use crate::tokenizer::tree_builder_simulator::{
    end_tag_transition, nested_start_transition, sim_wf, start_tag_transition, SimModel,
    TextParsingMode,
};
use crate::tokenizer::TokenizerBailoutReason;
use vstd::prelude::*;

verus! {

/// The states of the byte-driven machine.
#[derive(Debug, Clone, Copy, PartialEq, Eq, Structural)]
pub enum TokenizerState {
    Data,
    TagOpen,
    EndTagOpen,
    TagName,
    BeforeAttributeName,
    AttributeName,
    AfterAttributeName,
    BeforeAttributeValue,
    AttributeValueQuoted,
    AttributeValueUnquoted,
    AfterAttributeValueQuoted,
    SelfClosingStartTag,
    MarkupDeclaration,
    CommentStartDash,
    Comment,
    CommentEndDash,
    CommentEnd,
    BogusComment,
    CdataOpenC,
    CdataOpenD,
    CdataOpenA1,
    CdataOpenT,
    CdataOpenA2,
    CdataOpenBracket,
    CdataSection,
    CdataBracket,
    CdataEnd,
    RawText,
    RawTextLt,
    RawTextEndTagOpen,
    RawTextEndTagName,
    RawTextStartTagName,
}

/// The lexical unit currently under construction.
#[derive(Debug, Clone, Copy, PartialEq, Eq, Structural)]
pub enum CurrentToken {
    StartTag { name: SliceRange, self_closing: bool },
    EndTag { name: SliceRange },
}

pub struct TokModel {
    pub state: TokenizerState,
    pub pos: int,
    pub raw_start: int,
    pub token_part_start: int,
    pub lt_pos: int,
    pub finished: bool,
    pub bailed: Option<TokenizerBailoutReason>,
    pub mode: TextParsingMode,
    pub closing_quote: u8,
    pub last_start_tag_name_hash: Option<u64>,
    pub current_token: Option<CurrentToken>,
    pub current_attr: Option<AttributeView>,
    pub attr_buffer: Seq<AttributeView>,
    pub name_buf: Seq<u8>,
    pub sim: SimModel,
    pub units: Seq<UnitModel>,
}

pub open spec fn live(m: TokModel) -> bool {
    !m.finished && m.bailed is None
}

pub open spec fn is_ws(b: u8) -> bool {
    b == 32 || b == 9 || b == 10 || b == 13 || b == 12
}

pub open spec fn is_letter(b: u8) -> bool {
    (65 <= b && b <= 90) || (97 <= b && b <= 122)
}

pub open spec fn is_digit(b: u8) -> bool {
    48 <= b && b <= 57
}

pub open spec fn initial_model() -> TokModel {
    TokModel {
        state: TokenizerState::Data,
        pos: 0,
        raw_start: 0,
        token_part_start: 0,
        lt_pos: 0,
        finished: false,
        bailed: None,
        mode: TextParsingMode::Data,
        closing_quote: 34,
        last_start_tag_name_hash: None,
        current_token: None,
        current_attr: None,
        attr_buffer: Seq::empty(),
        name_buf: Seq::empty(),
        sim: SimModel { nesting: 0, foreign_depth: 0 },
        units: Seq::empty(),
    }
}

/// Per-state well-formedness: the offset bookkeeping the executable
/// machine relies on to compute ranges without underflow.
pub open spec fn wf_m(m: TokModel) -> bool {
    &&& 0 <= m.raw_start <= m.pos
    &&& 0 <= m.token_part_start
    &&& 0 <= m.lt_pos
    &&& sim_wf(m.sim)
    &&& match m.state {
        TokenizerState::TagName
        | TokenizerState::AttributeName
        | TokenizerState::AttributeValueQuoted
        | TokenizerState::AttributeValueUnquoted => m.raw_start + m.token_part_start <= m.pos
            && m.current_token is Some,
        TokenizerState::BeforeAttributeName
        | TokenizerState::AfterAttributeName
        | TokenizerState::BeforeAttributeValue
        | TokenizerState::AfterAttributeValueQuoted
        | TokenizerState::SelfClosingStartTag => m.current_token is Some,
        TokenizerState::Comment => m.raw_start + m.token_part_start <= m.pos,
        TokenizerState::CommentEndDash => m.raw_start + m.token_part_start + 1 <= m.pos,
        TokenizerState::CommentEnd => m.raw_start + m.token_part_start + 2 <= m.pos,
        TokenizerState::BogusComment => m.raw_start + m.token_part_start <= m.pos,
        TokenizerState::CdataBracket => m.raw_start + 1 <= m.pos,
        TokenizerState::CdataEnd => m.raw_start + 2 <= m.pos,
        TokenizerState::RawTextLt => m.raw_start <= m.lt_pos < m.pos,
        TokenizerState::RawTextEndTagOpen | TokenizerState::RawTextEndTagName => m.raw_start
            <= m.lt_pos && m.lt_pos + 2 <= m.pos,
        TokenizerState::RawTextStartTagName => m.raw_start <= m.lt_pos && m.lt_pos + 1 <= m.pos,
        _ => true,
    }
}

/// The states a caller may reset the machine into from outside: the
/// re-enterable scanning states that need no in-progress bookkeeping.
pub open spec fn settable_state(s: TokenizerState) -> bool {
    match s {
        TokenizerState::Data | TokenizerState::RawText | TokenizerState::CdataSection => true,
        _ => false,
    }
}

// ---------------------------------------------------------------
// Model-level actions
// ---------------------------------------------------------------
/// Emits the pending character run `[raw_start, end)` if it is not
/// empty; character runs use an exclusive raw range.
pub open spec fn emit_chars_upto(m: TokModel, end: int) -> TokModel {
    if end > m.raw_start {
        TokModel {
            units: m.units.push(
                UnitModel::Character {
                    raw: SliceRange { start: m.raw_start as usize, end: end as usize },
                },
            ),
            ..m
        }
    } else {
        m
    }
}

/// Emits a comment whose text ends at `text_end_rel` (relative to the
/// raw slice) and returns to `Data`; comments use an inclusive raw
/// range ending just past the current byte `p`.
pub open spec fn emit_comment(m: TokModel, p: int, text_end_rel: int) -> TokModel {
    TokModel {
        state: TokenizerState::Data,
        raw_start: p + 1,
        units: m.units.push(
            UnitModel::Comment {
                text: SliceRange {
                    start: m.token_part_start as usize,
                    end: text_end_rel as usize,
                },
                raw: SliceRange { start: m.raw_start as usize, end: (p + 1) as usize },
            },
        ),
        ..m
    }
}

pub open spec fn state_for_mode(mode: TextParsingMode) -> TokenizerState {
    match mode {
        TextParsingMode::Data => TokenizerState::Data,
        TextParsingMode::CDataSection => TokenizerState::Data,
        _ => TokenizerState::RawText,
    }
}

/// Emits the current tag on its closing `>` at position `p`: consults
/// the tree-construction simulator, attaches the attribute snapshot
/// for start tags, caches the start-tag name hash, and enters the
/// state for the mode the simulator selected.
pub open spec fn emit_tag(m: TokModel, p: int) -> TokModel {
    match m.current_token {
        Some(CurrentToken::StartTag { name, self_closing }) => {
            let h = name_hash(m.name_buf);
            let tr = start_tag_transition(m.sim, h, self_closing);
            match tr.1 {
                Err(reason) => TokModel { sim: tr.0, bailed: Some(reason), ..m },
                Ok(mode) => TokModel {
                    sim: tr.0,
                    last_start_tag_name_hash: h,
                    mode,
                    state: state_for_mode(mode),
                    raw_start: p + 1,
                    current_token: None,
                    current_attr: None,
                    units: m.units.push(
                        UnitModel::StartTag {
                            name,
                            attributes: m.attr_buffer,
                            self_closing,
                            raw: SliceRange {
                                start: m.raw_start as usize,
                                end: (p + 1) as usize,
                            },
                        },
                    ),
                    ..m
                },
            }
        },
        Some(CurrentToken::EndTag { name }) => {
            let h = name_hash(m.name_buf);
            TokModel {
                sim: end_tag_transition(m.sim, h),
                mode: TextParsingMode::Data,
                state: TokenizerState::Data,
                raw_start: p + 1,
                current_token: None,
                current_attr: None,
                units: m.units.push(
                    UnitModel::EndTag {
                        name,
                        raw: SliceRange { start: m.raw_start as usize, end: (p + 1) as usize },
                    },
                ),
                ..m
            }
        },
        None => m,
    }
}

/// Enters (or immediately finishes) a bogus comment at byte `b`.
pub open spec fn to_bogus(m: TokModel, b: u8) -> TokModel {
    let m1 = TokModel { token_part_start: m.pos - m.raw_start, ..m };
    if b == 62 {
        emit_comment(m1, m.pos, m.pos - m.raw_start)
    } else {
        TokModel { state: TokenizerState::BogusComment, ..m1 }
    }
}

/// Starts a fresh attribute (start tags only; end-tag attributes are
/// scanned but dropped).
pub open spec fn start_attr(m: TokModel) -> TokModel {
    TokModel {
        current_attr: if m.current_token matches Some(CurrentToken::StartTag { .. }) {
            Some(
                AttributeView {
                    name: SliceRange { start: 0, end: 0 },
                    value: SliceRange { start: 0, end: 0 },
                },
            )
        } else {
            None
        },
        token_part_start: m.pos - m.raw_start,
        state: TokenizerState::AttributeName,
        ..m
    }
}

pub open spec fn finish_attr_name(m: TokModel) -> TokModel {
    match m.current_attr {
        Some(a) => TokModel {
            current_attr: Some(
                AttributeView {
                    name: SliceRange {
                        start: m.token_part_start as usize,
                        end: (m.pos - m.raw_start) as usize,
                    },
                    ..a
                },
            ),
            ..m
        },
        None => m,
    }
}

/// Completes the pending attribute with an empty value.
pub open spec fn push_attr_empty(m: TokModel) -> TokModel {
    match m.current_attr {
        Some(a) => TokModel {
            attr_buffer: m.attr_buffer.push(
                AttributeView {
                    value: SliceRange {
                        start: (m.pos - m.raw_start) as usize,
                        end: (m.pos - m.raw_start) as usize,
                    },
                    ..a
                },
            ),
            current_attr: None,
            ..m
        },
        None => m,
    }
}

/// Completes the pending attribute with the value `[token_part_start,
/// pos - raw_start)`.
pub open spec fn push_attr_with_value(m: TokModel) -> TokModel {
    match m.current_attr {
        Some(a) => TokModel {
            attr_buffer: m.attr_buffer.push(
                AttributeView {
                    value: SliceRange {
                        start: m.token_part_start as usize,
                        end: (m.pos - m.raw_start) as usize,
                    },
                    ..a
                },
            ),
            current_attr: None,
            ..m
        },
        None => m,
    }
}

pub open spec fn set_tag_name(m: TokModel) -> TokModel {
    let r = SliceRange {
        start: m.token_part_start as usize,
        end: (m.pos - m.raw_start) as usize,
    };
    match m.current_token {
        Some(CurrentToken::StartTag { name, self_closing }) => TokModel {
            current_token: Some(CurrentToken::StartTag { name: r, self_closing }),
            ..m
        },
        Some(CurrentToken::EndTag { name }) => TokModel {
            current_token: Some(CurrentToken::EndTag { name: r }),
            ..m
        },
        None => m,
    }
}

/// Whether the candidate name just scanned in raw text matches the
/// name of the element that governs the current mode.
pub open spec fn raw_name_matches(m: TokModel) -> bool {
    m.last_start_tag_name_hash is Some && name_hash(m.name_buf) == m.last_start_tag_name_hash
}

/// The committed raw-text end tag: the pending character run ends at
/// the `<` of `</name`, and an end-tag token takes over from there.
pub open spec fn commit_raw_end_tag(m: TokModel, p: int) -> TokModel {
    let m1 = emit_chars_upto(m, m.lt_pos);
    TokModel {
        raw_start: m.lt_pos,
        token_part_start: 2,
        current_token: Some(
            CurrentToken::EndTag {
                name: SliceRange { start: 2, end: (p - m.lt_pos) as usize },
            },
        ),
        current_attr: None,
        ..m1
    }
}

// ---------------------------------------------------------------
// The transition function
// ---------------------------------------------------------------
pub open spec fn eof_emits_chars(s: TokenizerState) -> bool {
    match s {
        TokenizerState::Data
        | TokenizerState::CdataSection
        | TokenizerState::CdataBracket
        | TokenizerState::CdataEnd
        | TokenizerState::RawText
        | TokenizerState::RawTextLt
        | TokenizerState::RawTextEndTagOpen
        | TokenizerState::RawTextEndTagName
        | TokenizerState::RawTextStartTagName => true,
        _ => false,
    }
}

/// The end-of-input sentinel: flushes the pending character run where
/// one can be pending, then emits the terminal `Eof` unit.  A
/// structure left unfinished at end of input is dropped.
pub open spec fn step_eof(m: TokModel) -> TokModel {
    let m1 = if eof_emits_chars(m.state) {
        emit_chars_upto(m, m.pos)
    } else {
        m
    };
    TokModel { finished: true, units: m1.units.push(UnitModel::Eof), ..m1 }
}

pub open spec fn step_byte(m: TokModel, b: u8) -> TokModel {
    let p = m.pos;
    match m.state {
        TokenizerState::Data => {
            if b == 60 {
                let m1 = emit_chars_upto(m, p);
                TokModel { raw_start: p, state: TokenizerState::TagOpen, ..m1 }
            } else {
                m
            }
        },
        TokenizerState::TagOpen => {
            if is_letter(b) {
                TokModel {
                    current_token: Some(
                        CurrentToken::StartTag {
                            name: SliceRange { start: 0, end: 0 },
                            self_closing: false,
                        },
                    ),
                    current_attr: None,
                    attr_buffer: Seq::empty(),
                    name_buf: seq![crate::tokenizer::tag_name::fold_byte_spec(b)],
                    token_part_start: p - m.raw_start,
                    state: TokenizerState::TagName,
                    ..m
                }
            } else if b == 47 {
                TokModel { state: TokenizerState::EndTagOpen, ..m }
            } else if b == 33 {
                TokModel { state: TokenizerState::MarkupDeclaration, ..m }
            } else if b == 63 {
                to_bogus(m, b)
            } else if b == 60 {
                let m1 = emit_chars_upto(m, p);
                TokModel { raw_start: p, ..m1 }
            } else {
                TokModel { state: TokenizerState::Data, ..m }
            }
        },
        TokenizerState::EndTagOpen => {
            if is_letter(b) {
                TokModel {
                    current_token: Some(
                        CurrentToken::EndTag { name: SliceRange { start: 0, end: 0 } },
                    ),
                    name_buf: seq![crate::tokenizer::tag_name::fold_byte_spec(b)],
                    token_part_start: p - m.raw_start,
                    state: TokenizerState::TagName,
                    ..m
                }
            } else if b == 62 {
                TokModel { state: TokenizerState::Data, ..m }
            } else {
                to_bogus(m, b)
            }
        },
        TokenizerState::TagName => {
            if is_ws(b) {
                TokModel { state: TokenizerState::BeforeAttributeName, ..set_tag_name(m) }
            } else if b == 47 {
                TokModel { state: TokenizerState::SelfClosingStartTag, ..set_tag_name(m) }
            } else if b == 62 {
                emit_tag(set_tag_name(m), p)
            } else {
                TokModel {
                    name_buf: m.name_buf.push(crate::tokenizer::tag_name::fold_byte_spec(b)),
                    ..m
                }
            }
        },
        TokenizerState::BeforeAttributeName => {
            if is_ws(b) {
                m
            } else if b == 47 {
                TokModel { state: TokenizerState::SelfClosingStartTag, ..m }
            } else if b == 62 {
                emit_tag(m, p)
            } else {
                start_attr(m)
            }
        },
        TokenizerState::AttributeName => {
            if is_ws(b) {
                TokModel { state: TokenizerState::AfterAttributeName, ..finish_attr_name(m) }
            } else if b == 61 {
                TokModel { state: TokenizerState::BeforeAttributeValue, ..finish_attr_name(m) }
            } else if b == 47 {
                TokModel {
                    state: TokenizerState::SelfClosingStartTag,
                    ..push_attr_empty(finish_attr_name(m))
                }
            } else if b == 62 {
                emit_tag(push_attr_empty(finish_attr_name(m)), p)
            } else {
                m
            }
        },
        TokenizerState::AfterAttributeName => {
            if is_ws(b) {
                m
            } else if b == 61 {
                TokModel { state: TokenizerState::BeforeAttributeValue, ..m }
            } else if b == 47 {
                TokModel { state: TokenizerState::SelfClosingStartTag, ..push_attr_empty(m) }
            } else if b == 62 {
                emit_tag(push_attr_empty(m), p)
            } else {
                start_attr(push_attr_empty(m))
            }
        },
        TokenizerState::BeforeAttributeValue => {
            if is_ws(b) {
                m
            } else if b == 34 || b == 39 {
                TokModel {
                    closing_quote: b,
                    token_part_start: p + 1 - m.raw_start,
                    state: TokenizerState::AttributeValueQuoted,
                    ..m
                }
            } else if b == 62 {
                emit_tag(push_attr_empty(m), p)
            } else {
                TokModel {
                    token_part_start: p - m.raw_start,
                    state: TokenizerState::AttributeValueUnquoted,
                    ..m
                }
            }
        },
        TokenizerState::AttributeValueQuoted => {
            if b == m.closing_quote {
                TokModel {
                    state: TokenizerState::AfterAttributeValueQuoted,
                    ..push_attr_with_value(m)
                }
            } else {
                m
            }
        },
        TokenizerState::AttributeValueUnquoted => {
            if is_ws(b) {
                TokModel { state: TokenizerState::BeforeAttributeName, ..push_attr_with_value(m) }
            } else if b == 62 {
                emit_tag(push_attr_with_value(m), p)
            } else {
                m
            }
        },
        TokenizerState::AfterAttributeValueQuoted => {
            if is_ws(b) {
                TokModel { state: TokenizerState::BeforeAttributeName, ..m }
            } else if b == 47 {
                TokModel { state: TokenizerState::SelfClosingStartTag, ..m }
            } else if b == 62 {
                emit_tag(m, p)
            } else {
                start_attr(m)
            }
        },
        TokenizerState::SelfClosingStartTag => {
            if b == 62 {
                let m1 = match m.current_token {
                    Some(CurrentToken::StartTag { name, self_closing }) => TokModel {
                        current_token: Some(
                            CurrentToken::StartTag { name, self_closing: true },
                        ),
                        ..m
                    },
                    _ => m,
                };
                emit_tag(m1, p)
            } else if is_ws(b) {
                TokModel { state: TokenizerState::BeforeAttributeName, ..m }
            } else {
                TokModel { state: TokenizerState::BeforeAttributeName, ..m }
            }
        },
        TokenizerState::MarkupDeclaration => {
            if b == 45 {
                TokModel { state: TokenizerState::CommentStartDash, ..m }
            } else if b == 91 && m.sim.foreign_depth > 0 {
                TokModel { state: TokenizerState::CdataOpenC, ..m }
            } else {
                to_bogus(m, b)
            }
        },
        TokenizerState::CommentStartDash => {
            if b == 45 {
                TokModel {
                    token_part_start: p + 1 - m.raw_start,
                    state: TokenizerState::Comment,
                    ..m
                }
            } else {
                to_bogus(m, b)
            }
        },
        TokenizerState::Comment => {
            if b == 45 {
                TokModel { state: TokenizerState::CommentEndDash, ..m }
            } else {
                m
            }
        },
        TokenizerState::CommentEndDash => {
            if b == 45 {
                TokModel { state: TokenizerState::CommentEnd, ..m }
            } else {
                TokModel { state: TokenizerState::Comment, ..m }
            }
        },
        TokenizerState::CommentEnd => {
            if b == 62 {
                emit_comment(m, p, p - 2 - m.raw_start)
            } else if b == 45 {
                m
            } else {
                TokModel { state: TokenizerState::Comment, ..m }
            }
        },
        TokenizerState::BogusComment => {
            if b == 62 {
                emit_comment(m, p, p - m.raw_start)
            } else {
                m
            }
        },
        TokenizerState::CdataOpenC => {
            if b == 67 {
                TokModel { state: TokenizerState::CdataOpenD, ..m }
            } else {
                to_bogus(m, b)
            }
        },
        TokenizerState::CdataOpenD => {
            if b == 68 {
                TokModel { state: TokenizerState::CdataOpenA1, ..m }
            } else {
                to_bogus(m, b)
            }
        },
        TokenizerState::CdataOpenA1 => {
            if b == 65 {
                TokModel { state: TokenizerState::CdataOpenT, ..m }
            } else {
                to_bogus(m, b)
            }
        },
        TokenizerState::CdataOpenT => {
            if b == 84 {
                TokModel { state: TokenizerState::CdataOpenA2, ..m }
            } else {
                to_bogus(m, b)
            }
        },
        TokenizerState::CdataOpenA2 => {
            if b == 65 {
                TokModel { state: TokenizerState::CdataOpenBracket, ..m }
            } else {
                to_bogus(m, b)
            }
        },
        TokenizerState::CdataOpenBracket => {
            if b == 91 {
                TokModel {
                    state: TokenizerState::CdataSection,
                    mode: TextParsingMode::CDataSection,
                    raw_start: p + 1,
                    ..m
                }
            } else {
                to_bogus(m, b)
            }
        },
        TokenizerState::CdataSection => {
            if b == 93 {
                TokModel { state: TokenizerState::CdataBracket, ..m }
            } else {
                m
            }
        },
        TokenizerState::CdataBracket => {
            if b == 93 {
                TokModel { state: TokenizerState::CdataEnd, ..m }
            } else {
                TokModel { state: TokenizerState::CdataSection, ..m }
            }
        },
        TokenizerState::CdataEnd => {
            if b == 62 {
                let m1 = emit_chars_upto(m, p - 2);
                TokModel {
                    state: TokenizerState::Data,
                    mode: TextParsingMode::Data,
                    raw_start: p + 1,
                    ..m1
                }
            } else if b == 93 {
                m
            } else {
                TokModel { state: TokenizerState::CdataSection, ..m }
            }
        },
        TokenizerState::RawText => {
            if b == 60 && !(m.mode is PlainText) {
                TokModel { lt_pos: p, state: TokenizerState::RawTextLt, ..m }
            } else {
                m
            }
        },
        TokenizerState::RawTextLt => {
            if b == 47 {
                TokModel { state: TokenizerState::RawTextEndTagOpen, ..m }
            } else if is_letter(b) {
                TokModel {
                    name_buf: seq![crate::tokenizer::tag_name::fold_byte_spec(b)],
                    state: TokenizerState::RawTextStartTagName,
                    ..m
                }
            } else if b == 60 {
                TokModel { lt_pos: p, ..m }
            } else {
                TokModel { state: TokenizerState::RawText, ..m }
            }
        },
        TokenizerState::RawTextEndTagOpen => {
            if is_letter(b) {
                TokModel {
                    name_buf: seq![crate::tokenizer::tag_name::fold_byte_spec(b)],
                    state: TokenizerState::RawTextEndTagName,
                    ..m
                }
            } else if b == 60 {
                TokModel { lt_pos: p, state: TokenizerState::RawTextLt, ..m }
            } else {
                TokModel { state: TokenizerState::RawText, ..m }
            }
        },
        TokenizerState::RawTextEndTagName => {
            if is_letter(b) || is_digit(b) {
                TokModel {
                    name_buf: m.name_buf.push(crate::tokenizer::tag_name::fold_byte_spec(b)),
                    ..m
                }
            } else if is_ws(b) || b == 47 || b == 62 {
                if raw_name_matches(m) {
                    let m1 = commit_raw_end_tag(m, p);
                    if b == 62 {
                        emit_tag(m1, p)
                    } else if b == 47 {
                        TokModel { state: TokenizerState::SelfClosingStartTag, ..m1 }
                    } else {
                        TokModel { state: TokenizerState::BeforeAttributeName, ..m1 }
                    }
                } else {
                    TokModel { state: TokenizerState::RawText, ..m }
                }
            } else if b == 60 {
                TokModel { lt_pos: p, state: TokenizerState::RawTextLt, ..m }
            } else {
                TokModel { state: TokenizerState::RawText, ..m }
            }
        },
        TokenizerState::RawTextStartTagName => {
            if is_letter(b) || is_digit(b) {
                TokModel {
                    name_buf: m.name_buf.push(crate::tokenizer::tag_name::fold_byte_spec(b)),
                    ..m
                }
            } else if is_ws(b) || b == 47 || b == 62 {
                if raw_name_matches(m) {
                    let tr = nested_start_transition(m.sim);
                    match tr.1 {
                        Err(reason) => TokModel { sim: tr.0, bailed: Some(reason), ..m },
                        Ok(_) => TokModel { sim: tr.0, state: TokenizerState::RawText, ..m },
                    }
                } else {
                    TokModel { state: TokenizerState::RawText, ..m }
                }
            } else if b == 60 {
                TokModel { lt_pos: p, state: TokenizerState::RawTextLt, ..m }
            } else {
                TokModel { state: TokenizerState::RawText, ..m }
            }
        },
    }
}

/// One step of the machine: `None` is the end-of-input sentinel, a
/// byte advances the position by exactly one.
pub open spec fn spec_step(m: TokModel, b: Option<u8>) -> TokModel {
    if !live(m) {
        m
    } else {
        match b {
            None => step_eof(m),
            Some(bv) => TokModel { pos: m.pos + 1, ..step_byte(m, bv) },
        }
    }
}

// ---------------------------------------------------------------
// Whole runs
// ---------------------------------------------------------------
pub open spec fn run_fuel(m: TokModel, input: Seq<u8>) -> nat {
    if 0 <= m.pos <= input.len() {
        (input.len() - m.pos) as nat
    } else {
        0
    }
}

pub open spec fn spec_run_n(m: TokModel, input: Seq<u8>, n: nat) -> TokModel
    decreases n,
{
    if n == 0 || !live(m) || !(0 <= m.pos < input.len()) {
        m
    } else {
        spec_run_n(spec_step(m, Some(input[m.pos])), input, (n - 1) as nat)
    }
}

/// Running the machine over `input` until the buffered bytes are
/// exhausted, the stream is finished, or a bailout is recorded.
pub open spec fn spec_run(m: TokModel, input: Seq<u8>) -> TokModel {
    spec_run_n(m, input, run_fuel(m, input))
}

pub proof fn lemma_step_pos(m: TokModel, b: u8)
    requires
        live(m),
    ensures
        spec_step(m, Some(b)).pos == m.pos + 1,
{
}

pub proof fn lemma_run_stops(m: TokModel, input: Seq<u8>)
    requires
        !live(m) || !(0 <= m.pos < input.len()),
    ensures
        spec_run(m, input) == m,
{
}

pub proof fn lemma_run_unfold(m: TokModel, input: Seq<u8>)
    requires
        live(m),
        0 <= m.pos < input.len(),
    ensures
        spec_run(m, input) == spec_run(spec_step(m, Some(input[m.pos])), input),
{
    let m2 = spec_step(m, Some(input[m.pos]));
    lemma_step_pos(m, input[m.pos]);
    assert(run_fuel(m, input) == run_fuel(m2, input) + 1);
}

/// A step taken from a well-formed state leaves the state well
/// formed, provided the position has not yet run past the input.
#[verifier::rlimit(100)]
pub proof fn lemma_step_wf(m: TokModel, b: Option<u8>)
    requires
        wf_m(m),
    ensures
        wf_m(spec_step(m, b)),
{
}

/// Raw-text boundary correctness: while scanning a candidate end-tag
/// name inside raw text, the machine leaves raw-text mode only when
/// the candidate's name is byte-for-byte the (case-folded) name of
/// the element that governs the mode — an embedded fragment such as
/// `</scr` inside script content can never terminate it.  The hash
/// comparison the machine performs is exact because the hash is
/// injective.
pub proof fn lemma_raw_text_end_tag_exact(m: TokModel, b: u8, governing: Seq<u8>)
    requires
        live(m),
        m.state is RawTextEndTagName,
        is_ws(b) || b == 47 || b == 62,
        m.last_start_tag_name_hash == crate::tokenizer::tag_name::name_hash(governing),
        crate::tokenizer::tag_name::name_hash(governing) is Some,
    ensures
        raw_name_matches(m) ==> m.name_buf == governing,
        !raw_name_matches(m) ==> spec_step(m, Some(b)).state is RawText,
{
    if raw_name_matches(m) {
        crate::tokenizer::tag_name::lemma_name_hash_injective(governing, m.name_buf);
    }
}

/// Attribute-buffer freshness, creation half: beginning a start tag
/// clears the shared attribute list, so nothing from an earlier tag
/// can linger.
pub proof fn lemma_start_tag_clears_attributes(m: TokModel, b: u8)
    requires
        live(m),
        m.state is TagOpen,
        is_letter(b),
    ensures
        spec_step(m, Some(b)).attr_buffer == Seq::<AttributeView>::empty(),
{
}

/// Attribute-buffer freshness, delivery half: whenever a step emits a
/// start-tag unit, the attribute list attached to it is exactly the
/// accumulated attribute buffer of the machine after that step — the
/// attributes assembled for that very tag, in source order.
pub proof fn lemma_start_tag_unit_attributes(m: TokModel, b: u8)
    requires
        live(m),
    ensures
        ({
            let m2 = spec_step(m, Some(b));
            forall|k: int|
                m.units.len() <= k < m2.units.len() ==> ((#[trigger] m2.units[k]) matches
                UnitModel::StartTag { attributes, .. } ==> attributes == m2.attr_buffer)
        }),
{
    let m2 = spec_step(m, Some(b));
    assert forall|k: int| m.units.len() <= k < m2.units.len() implies ((#[trigger] m2.units[k])
        matches UnitModel::StartTag { attributes, .. } ==> attributes == m2.attr_buffer) by {
        assert(m2.units.len() <= m.units.len() + 2);
    }
}

/// A step never revises or removes an emitted unit: the unit log
/// only grows.  Together with the freshness lemmas above, a start-tag
/// unit delivered with its attribute snapshot stays exactly as
/// delivered, however much input follows.
#[verifier::rlimit(100)]
pub proof fn lemma_step_units_append_only(m: TokModel, b: Option<u8>)
    ensures
        spec_step(m, b).units.len() >= m.units.len(),
        forall|k: int|
            0 <= k < m.units.len() ==> spec_step(m, b).units[k] == #[trigger] m.units[k],
{
}

/// The whole-run form: a run over any input only appends units.
pub proof fn lemma_run_units_append_only(m: TokModel, input: Seq<u8>)
    ensures
        spec_run(m, input).units.len() >= m.units.len(),
        forall|k: int|
            0 <= k < m.units.len() ==> spec_run(m, input).units[k] == #[trigger] m.units[k],
    decreases run_fuel(m, input),
{
    if live(m) && 0 <= m.pos < input.len() {
        let m2 = spec_step(m, Some(input[m.pos]));
        lemma_run_unfold(m, input);
        lemma_step_pos(m, input[m.pos]);
        lemma_step_units_append_only(m, Some(input[m.pos]));
        lemma_run_units_append_only(m2, input);
    } else {
        lemma_run_stops(m, input);
    }
}

/// Chunk-boundary invariance: pausing a run at the end of chunk `a`
/// and resuming once `b` has been appended reaches exactly the state —
/// and exactly the lexical units — of a run over `a + b` in one piece.
/// Splitting at any set of boundaries follows by induction.
pub proof fn lemma_chunk_boundary_invariance(m: TokModel, a: Seq<u8>, b: Seq<u8>)
    requires
        0 <= m.pos,
    ensures
        spec_run(spec_run(m, a), a + b) == spec_run(m, a + b),
    decreases run_fuel(m, a),
{
    if !live(m) || m.pos >= a.len() {
        lemma_run_stops(m, a);
    } else {
        let m2 = spec_step(m, Some(a[m.pos]));
        assert((a + b)[m.pos] == a[m.pos]);
        lemma_run_unfold(m, a);
        lemma_run_unfold(m, a + b);
        lemma_step_pos(m, a[m.pos]);
        lemma_chunk_boundary_invariance(m2, a, b);
    }
}

/// The concatenation of a sequence of chunks.
pub open spec fn chunks_concat(chunks: Seq<Seq<u8>>) -> Seq<u8>
    decreases chunks.len(),
{
    if chunks.len() == 0 {
        Seq::empty()
    } else {
        chunks.first() + chunks_concat(chunks.drop_first())
    }
}

/// One run to exhaustion after each appended chunk, as
/// `tokenize_chunk` performs them.
pub open spec fn feed_chunks(m: TokModel, buf: Seq<u8>, chunks: Seq<Seq<u8>>) -> TokModel
    decreases chunks.len(),
{
    if chunks.len() == 0 {
        m
    } else {
        feed_chunks(spec_run(m, buf + chunks.first()), buf + chunks.first(), chunks.drop_first())
    }
}

proof fn lemma_chunks_concat_assoc(buf: Seq<u8>, chunks: Seq<Seq<u8>>)
    ensures
        buf + chunks_concat(chunks) == (if chunks.len() == 0 {
            buf
        } else {
            (buf + chunks.first()) + chunks_concat(chunks.drop_first())
        }),
{
    if chunks.len() == 0 {
        assert(buf + chunks_concat(chunks) =~= buf);
    } else {
        assert(buf + chunks_concat(chunks) =~= (buf + chunks.first()) + chunks_concat(
            chunks.drop_first(),
        ));
    }
}

/// Chunk-boundary invariance for any set of boundaries: starting
/// from a machine that has already exhausted its buffer (as a fresh
/// tokenizer has, and as `tokenize_chunk` leaves it), feeding a
/// stream chunk by chunk — running to exhaustion after each —
/// reaches exactly the state, and the unit sequence, of one run over
/// the whole stream.
pub proof fn lemma_feed_chunks_is_whole_run(m: TokModel, buf: Seq<u8>, chunks: Seq<Seq<u8>>)
    requires
        0 <= m.pos,
        spec_run(m, buf) == m,
    ensures
        feed_chunks(m, buf, chunks) == spec_run(m, buf + chunks_concat(chunks)),
    decreases chunks.len(),
{
    if chunks.len() == 0 {
        lemma_chunks_concat_assoc(buf, chunks);
        assert(buf + chunks_concat(chunks) =~= buf);
    } else {
        let buf1 = buf + chunks.first();
        let m1 = spec_run(m, buf1);
        lemma_run_pos_bounds(m, buf1);
        lemma_run_prefix_settled(m, buf1);
        lemma_feed_chunks_is_whole_run(m1, buf1, chunks.drop_first());
        lemma_chunks_concat_assoc(buf, chunks);
        lemma_chunk_boundary_invariance(m, buf1, chunks_concat(chunks.drop_first()));
        assert(buf1 + chunks_concat(chunks.drop_first()) == buf + chunks_concat(chunks));
    }
}

/// A run never moves the position backwards.
pub proof fn lemma_run_pos_bounds(m: TokModel, input: Seq<u8>)
    requires
        0 <= m.pos,
    ensures
        0 <= spec_run(m, input).pos,
    decreases run_fuel(m, input),
{
    if live(m) && 0 <= m.pos < input.len() {
        lemma_run_unfold(m, input);
        lemma_step_pos(m, input[m.pos]);
        lemma_run_pos_bounds(spec_step(m, Some(input[m.pos])), input);
    } else {
        lemma_run_stops(m, input);
    }
}

/// A machine is settled over its buffer once a run over it ends:
/// running again adds nothing.
pub proof fn lemma_run_prefix_settled(m: TokModel, input: Seq<u8>)
    ensures
        spec_run(spec_run(m, input), input) == spec_run(m, input),
    decreases run_fuel(m, input),
{
    if live(m) && 0 <= m.pos < input.len() {
        lemma_run_unfold(m, input);
        lemma_step_pos(m, input[m.pos]);
        lemma_run_prefix_settled(spec_step(m, Some(input[m.pos])), input);
    } else {
        lemma_run_stops(m, input);
        lemma_run_stops(spec_run(m, input), input);
    }
}

} // verus!
