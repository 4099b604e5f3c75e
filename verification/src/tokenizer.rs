//! The streaming tokenizer: input buffer, lexical units, tag-name
//! hashing, the tree-construction simulator and the byte-driven state
//! machine itself.
//!
//! The executable machine follows the pure transition function
//! `state_machine::spec_step` step for step; `tokenize_chunk` and
//! `end` are specified entirely in terms of whole runs of that
//! function, which is what makes chunk boundaries unobservable.

pub mod input_chunk;
pub mod lex_unit;
pub mod state_machine;
pub mod tag_name;
pub mod tree_builder_simulator;

use crate::tokenizer::input_chunk::InputChunk;
use crate::tokenizer::lex_unit::{AttributeView, LexUnit, SliceRange, TokenView, UnitModel};
use crate::tokenizer::state_machine::{
    emit_chars_upto, emit_comment, emit_tag, finish_attr_name, initial_model, is_digit, is_letter,
    is_ws, live, push_attr_empty, push_attr_with_value, set_tag_name, spec_run, spec_step,
    start_attr, state_for_mode, to_bogus, wf_m, CurrentToken, TokModel, TokenizerState,
};
use crate::tokenizer::tag_name::{fold_byte, tag_name_hash};
use crate::tokenizer::tree_builder_simulator::{
    TextParsingMode, TextParsingModeChangeHandler, TextParsingModeSnapshot, TreeBuilderSimulator,
};
use vstd::prelude::*;

verus! {

/// A terminal, typed failure that aborts further tokenization of the
/// current stream.  All three variants are data-dependent conditions
/// that a caller is expected to handle (for instance by passing the
/// document through unmodified); none of them is a programming error.
#[derive(Debug, Copy, Clone, PartialEq, Eq, Structural)]
pub enum TokenizerBailoutReason {
    /// The input exceeded the configured input-buffer ceiling.
    BufferCapacityExceeded,
    /// The tree-construction simulator could not determine the correct
    /// text-parsing mode with confidence.
    TextParsingAmbiguity,
    /// The per-name nesting counter for a mode-affecting element
    /// exceeded its configured bound.
    MaxTagNestingReached,
}

/// The synchronous consumer of completed lexical units.  A unit is a
/// transient view: it must be consumed before the call returns and
/// not retained, because the backing attribute storage is reused.
pub trait LexUnitHandler {
    fn handle(&mut self, lex_unit: &LexUnit);
}

/// The streaming tokenizer.  Bytes are pushed in with
/// `tokenize_chunk`, which pauses when the buffered input is
/// exhausted and resumes exactly where it left off on the next chunk;
/// `end` flushes the trailing character run and emits the terminal
/// `Eof` unit.
pub struct Tokenizer<H: LexUnitHandler> {
    input_chunk: InputChunk,
    pos: usize,
    raw_start: usize,
    token_part_start: usize,
    lt_pos: usize,
    finished: bool,
    bailed: Option<TokenizerBailoutReason>,
    mode: TextParsingMode,
    closing_quote: u8,
    last_start_tag_name_hash: Option<u64>,
    current_token: Option<CurrentToken>,
    current_attr: Option<AttributeView>,
    attr_buffer: Vec<AttributeView>,
    name_buf: Vec<u8>,
    lex_unit_handler: H,
    state: TokenizerState,
    tree_builder_simulator: TreeBuilderSimulator,
    units: Ghost<Seq<UnitModel>>,
    text_parsing_mode_change_handler: Option<TextParsingModeChangeHandler>,
}

impl<H: LexUnitHandler> Tokenizer<H> {
    /// The model of the machine's current state, including the
    /// sequence of lexical units emitted so far.
    pub closed spec fn tok_model(&self) -> TokModel {
        TokModel {
            state: self.state,
            pos: self.pos as int,
            raw_start: self.raw_start as int,
            token_part_start: self.token_part_start as int,
            lt_pos: self.lt_pos as int,
            finished: self.finished,
            bailed: self.bailed,
            mode: self.mode,
            closing_quote: self.closing_quote,
            last_start_tag_name_hash: self.last_start_tag_name_hash,
            current_token: self.current_token,
            current_attr: self.current_attr,
            attr_buffer: self.attr_buffer@,
            name_buf: self.name_buf@,
            sim: self.tree_builder_simulator@,
            units: self.units@,
        }
    }

    /// The bytes buffered so far: the whole document prefix received.
    pub closed spec fn buffer(&self) -> Seq<u8> {
        self.input_chunk@
    }

    pub closed spec fn buffer_capacity(&self) -> nat {
        self.input_chunk.capacity()
    }

    pub closed spec fn wf(&self) -> bool {
        &&& self.input_chunk.wf()
        &&& wf_m(self.tok_model())
        &&& self.pos <= self.buffer().len()
    }

    pub fn new(buffer_capacity: usize, lex_unit_handler: H) -> (r: Self)
        ensures
            r.wf(),
            r.tok_model() == initial_model(),
            r.buffer() == Seq::<u8>::empty(),
            r.buffer_capacity() == buffer_capacity,
    {
        let t = Tokenizer {
            input_chunk: InputChunk::new(buffer_capacity),
            pos: 0,
            raw_start: 0,
            token_part_start: 0,
            lt_pos: 0,
            finished: false,
            bailed: None,
            mode: TextParsingMode::Data,
            closing_quote: 34,
            last_start_tag_name_hash: None,
            current_token: None,
            current_attr: None,
            attr_buffer: Vec::new(),
            name_buf: Vec::new(),
            lex_unit_handler,
            state: TokenizerState::Data,
            tree_builder_simulator: TreeBuilderSimulator::new(),
            units: Ghost(Seq::empty()),
            text_parsing_mode_change_handler: None,
        };
        proof {
            assert(t.tok_model() == initial_model());
        }
        t
    }

    /// Buffers one more chunk and runs the machine over every byte
    /// now available.  Fails with `BufferCapacityExceeded` — leaving
    /// both the buffer and the machine untouched — when the chunk
    /// does not fit; otherwise the machine advances to exactly
    /// `spec_run` of the extended buffer, and the result reports the
    /// bailout the run recorded, if any.
    pub fn tokenize_chunk(&mut self, chunk: &[u8]) -> (r: Result<(), TokenizerBailoutReason>)
        requires
            old(self).wf(),
        ensures
            final(self).wf(),
            final(self).buffer_capacity() == old(self).buffer_capacity(),
            old(self).buffer().len() + chunk@.len() > old(self).buffer_capacity() ==> {
                &&& r == Err::<(), TokenizerBailoutReason>(
                    TokenizerBailoutReason::BufferCapacityExceeded,
                )
                &&& final(self).buffer() == old(self).buffer()
                &&& final(self).tok_model() == old(self).tok_model()
            },
            old(self).buffer().len() + chunk@.len() <= old(self).buffer_capacity() ==> {
                &&& final(self).buffer() == old(self).buffer() + chunk@
                &&& final(self).tok_model() == spec_run(
                    old(self).tok_model(),
                    old(self).buffer() + chunk@,
                )
                &&& r == (match final(self).tok_model().bailed {
                    Some(reason) => Err::<(), TokenizerBailoutReason>(reason),
                    None => Ok::<(), TokenizerBailoutReason>(()),
                })
            },
    {
        match self.input_chunk.write(chunk) {
            Err(e) => {
                return Err(e);
            },
            Ok(_) => {},
        }
        let ghost m0 = self.tok_model();
        let ghost full = self.input_chunk@;
        let len = self.input_chunk.len();
        while !self.finished && self.bailed.is_none() && self.pos < len
            invariant
                self.wf(),
                self.buffer() == full,
                self.buffer_capacity() == old(self).buffer_capacity(),
                len == full.len(),
                spec_run(m0, full) == spec_run(self.tok_model(), full),
            decreases full.len() - self.pos,
        {
            let ob = self.input_chunk.peek_at(self.pos);
            proof {
                crate::tokenizer::state_machine::lemma_run_unfold(self.tok_model(), full);
            }
            self.step(ob);
        }
        proof {
            crate::tokenizer::state_machine::lemma_run_stops(self.tok_model(), full);
        }
        match self.bailed {
            Some(reason) => Err(reason),
            None => Ok(()),
        }
    }

    /// End-of-stream finalization: delivers the end-of-input sentinel
    /// once, which flushes any pending character run and emits the
    /// terminal `Eof` unit.
    pub fn end(&mut self)
        requires
            old(self).wf(),
        ensures
            final(self).wf(),
            final(self).buffer() == old(self).buffer(),
            final(self).buffer_capacity() == old(self).buffer_capacity(),
            final(self).tok_model() == spec_step(old(self).tok_model(), None),
    {
        if !self.finished && self.bailed.is_none() {
            self.step(None);
        }
    }

    /// Puts the machine into one of the scanning states; a testing
    /// surface.  Nothing but the state field changes.  Only the three
    /// re-enterable states are accepted: the others depend on
    /// in-progress bookkeeping (an open token, recorded offsets) that
    /// no caller can supply from outside.
    pub fn set_state(&mut self, state: TokenizerState)
        requires
            old(self).wf(),
            crate::tokenizer::state_machine::settable_state(state),
        ensures
            final(self).wf(),
            final(self).buffer() == old(self).buffer(),
            final(self).buffer_capacity() == old(self).buffer_capacity(),
            final(self).tok_model() == (TokModel { state, ..old(self).tok_model() }),
    {
        self.state = state;
    }

    /// Overrides the cached hash of the most recently opened start
    /// tag's name; a testing surface used together with `set_state`.
    pub fn set_last_start_tag_name_hash(&mut self, name_hash: Option<u64>)
        requires
            old(self).wf(),
        ensures
            final(self).wf(),
            final(self).buffer() == old(self).buffer(),
            final(self).buffer_capacity() == old(self).buffer_capacity(),
            final(self).tok_model() == (TokModel {
                last_start_tag_name_hash: name_hash,
                ..old(self).tok_model()
            }),
    {
        self.last_start_tag_name_hash = name_hash;
    }

    /// Installs a recorder that takes a snapshot whenever the
    /// text-parsing mode changes; a testing-only observation surface
    /// outside the machine's model.
    pub fn set_text_parsing_mode_change_handler(
        &mut self,
        handler: TextParsingModeChangeHandler,
    )
        requires
            old(self).wf(),
        ensures
            final(self).wf(),
            final(self).buffer() == old(self).buffer(),
            final(self).buffer_capacity() == old(self).buffer_capacity(),
            final(self).tok_model() == old(self).tok_model(),
    {
        self.text_parsing_mode_change_handler = Some(handler);
    }

    /// The installed lexical-unit consumer.
    pub fn lex_unit_handler(&self) -> &H {
        &self.lex_unit_handler
    }

    /// Removes and returns the installed mode-change recorder with
    /// everything it observed.
    pub fn take_text_parsing_mode_change_handler(&mut self) -> (r: Option<
        TextParsingModeChangeHandler,
    >)
        requires
            old(self).wf(),
        ensures
            final(self).wf(),
            final(self).buffer() == old(self).buffer(),
            final(self).buffer_capacity() == old(self).buffer_capacity(),
            final(self).tok_model() == old(self).tok_model(),
    {
        self.text_parsing_mode_change_handler.take()
    }

    // -----------------------------------------------------------
    // Internal actions, each proved against its model counterpart
    // -----------------------------------------------------------
    fn emit_char_run(&mut self, end: usize)
        ensures
            final(self).tok_model() == emit_chars_upto(old(self).tok_model(), end as int),
            final(self).input_chunk == old(self).input_chunk,
    {
        if end > self.raw_start {
            let unit = LexUnit {
                token: TokenView::Character,
                raw_range: SliceRange { start: self.raw_start, end },
            };
            proof {
                self.units@ = self.units@.push(unit@);
            }
            self.lex_unit_handler.handle(&unit);
        }
    }

    fn emit_comment_unit(&mut self, text_end_rel: usize)
        requires
            old(self).pos < usize::MAX,
        ensures
            final(self).tok_model() == emit_comment(
                old(self).tok_model(),
                old(self).tok_model().pos,
                text_end_rel as int,
            ),
            final(self).input_chunk == old(self).input_chunk,
    {
        let unit = LexUnit {
            token: TokenView::Comment {
                text: SliceRange { start: self.token_part_start, end: text_end_rel },
            },
            raw_range: SliceRange { start: self.raw_start, end: self.pos + 1 },
        };
        proof {
            self.units@ = self.units@.push(unit@);
        }
        self.lex_unit_handler.handle(&unit);
        self.state = TokenizerState::Data;
        self.raw_start = self.pos + 1;
    }

    fn enter_bogus(&mut self, b: u8)
        requires
            old(self).pos < usize::MAX,
            old(self).raw_start <= old(self).pos,
        ensures
            final(self).tok_model() == to_bogus(old(self).tok_model(), b),
            final(self).input_chunk == old(self).input_chunk,
    {
        self.token_part_start = self.pos - self.raw_start;
        if b == 62 {
            self.emit_comment_unit(self.pos - self.raw_start);
        } else {
            self.state = TokenizerState::BogusComment;
        }
    }

    fn do_start_attr(&mut self)
        requires
            old(self).raw_start <= old(self).pos,
        ensures
            final(self).tok_model() == start_attr(old(self).tok_model()),
            final(self).input_chunk == old(self).input_chunk,
    {
        self.current_attr = match self.current_token {
            Some(CurrentToken::StartTag { .. }) => Some(
                AttributeView {
                    name: SliceRange { start: 0, end: 0 },
                    value: SliceRange { start: 0, end: 0 },
                },
            ),
            _ => None,
        };
        self.token_part_start = self.pos - self.raw_start;
        self.state = TokenizerState::AttributeName;
    }

    fn do_finish_attr_name(&mut self)
        requires
            old(self).raw_start <= old(self).pos,
        ensures
            final(self).tok_model() == finish_attr_name(old(self).tok_model()),
            final(self).input_chunk == old(self).input_chunk,
    {
        match self.current_attr {
            Some(a) => {
                self.current_attr = Some(
                    AttributeView {
                        name: SliceRange {
                            start: self.token_part_start,
                            end: self.pos - self.raw_start,
                        },
                        value: a.value,
                    },
                );
            },
            None => {},
        }
    }

    fn do_push_attr_empty(&mut self)
        requires
            old(self).raw_start <= old(self).pos,
        ensures
            final(self).tok_model() == push_attr_empty(old(self).tok_model()),
            final(self).input_chunk == old(self).input_chunk,
    {
        match self.current_attr {
            Some(a) => {
                let rel = self.pos - self.raw_start;
                self.attr_buffer.push(
                    AttributeView { name: a.name, value: SliceRange { start: rel, end: rel } },
                );
                self.current_attr = None;
            },
            None => {},
        }
    }

    fn do_push_attr_value(&mut self)
        requires
            old(self).raw_start <= old(self).pos,
        ensures
            final(self).tok_model() == push_attr_with_value(old(self).tok_model()),
            final(self).input_chunk == old(self).input_chunk,
    {
        match self.current_attr {
            Some(a) => {
                self.attr_buffer.push(
                    AttributeView {
                        name: a.name,
                        value: SliceRange {
                            start: self.token_part_start,
                            end: self.pos - self.raw_start,
                        },
                    },
                );
                self.current_attr = None;
            },
            None => {},
        }
    }

    fn do_set_tag_name(&mut self)
        requires
            old(self).raw_start <= old(self).pos,
        ensures
            final(self).tok_model() == set_tag_name(old(self).tok_model()),
            final(self).input_chunk == old(self).input_chunk,
    {
        let r = SliceRange { start: self.token_part_start, end: self.pos - self.raw_start };
        match self.current_token {
            Some(CurrentToken::StartTag { name, self_closing }) => {
                self.current_token = Some(CurrentToken::StartTag { name: r, self_closing });
            },
            Some(CurrentToken::EndTag { name }) => {
                self.current_token = Some(CurrentToken::EndTag { name: r });
            },
            None => {},
        }
    }

    /// Emits the finished tag, routing it through the simulator for
    /// the text-parsing-mode feedback; records a mode-change snapshot
    /// for the testing recorder when the mode changes.
    fn emit_tag_unit(&mut self)
        requires
            old(self).pos < usize::MAX,
            old(self).raw_start <= old(self).pos,
            crate::tokenizer::tree_builder_simulator::sim_wf(old(self).tok_model().sim),
        ensures
            final(self).tok_model() == emit_tag(old(self).tok_model(), old(self).tok_model().pos),
            final(self).input_chunk == old(self).input_chunk,
    {
        match self.current_token {
            Some(CurrentToken::StartTag { name, self_closing }) => {
                let h = tag_name_hash(&self.name_buf);
                match self.tree_builder_simulator.get_feedback_for_start_tag_name(
                    h,
                    self_closing,
                ) {
                    Err(reason) => {
                        self.bailed = Some(reason);
                    },
                    Ok(mode) => {
                        let unit = LexUnit {
                            token: TokenView::StartTag {
                                name,
                                attributes: crate::tokenizer::lex_unit::clone_attributes(
                                    &self.attr_buffer,
                                ),
                                self_closing,
                            },
                            raw_range: SliceRange { start: self.raw_start, end: self.pos + 1 },
                        };
                        proof {
                            self.units@ = self.units@.push(unit@);
                        }
                        self.lex_unit_handler.handle(&unit);
                        self.last_start_tag_name_hash = h;
                        if mode != self.mode {
                            let snapshot = TextParsingModeSnapshot {
                                mode,
                                last_start_tag_name_hash: h,
                            };
                            match &mut self.text_parsing_mode_change_handler {
                                Some(recorder) => {
                                    recorder.snapshots.push(snapshot);
                                },
                                None => {},
                            }
                        }
                        self.mode = mode;
                        self.state = state_for_mode_exec(mode);
                        self.raw_start = self.pos + 1;
                        self.current_token = None;
                        self.current_attr = None;
                    },
                }
            },
            Some(CurrentToken::EndTag { name }) => {
                let h = tag_name_hash(&self.name_buf);
                self.tree_builder_simulator.get_feedback_for_end_tag_name(h);
                let unit = LexUnit {
                    token: TokenView::EndTag { name },
                    raw_range: SliceRange { start: self.raw_start, end: self.pos + 1 },
                };
                proof {
                    self.units@ = self.units@.push(unit@);
                }
                self.lex_unit_handler.handle(&unit);
                if !matches!(self.mode, TextParsingMode::Data) {
                    let snapshot = TextParsingModeSnapshot {
                        mode: TextParsingMode::Data,
                        last_start_tag_name_hash: self.last_start_tag_name_hash,
                    };
                    match &mut self.text_parsing_mode_change_handler {
                        Some(recorder) => {
                            recorder.snapshots.push(snapshot);
                        },
                        None => {},
                    }
                }
                self.mode = TextParsingMode::Data;
                self.state = TokenizerState::Data;
                self.raw_start = self.pos + 1;
                self.current_token = None;
                self.current_attr = None;
            },
            None => {},
        }
    }

    /// One step of the machine; follows `spec_step` exactly.
    fn step(&mut self, b: Option<u8>)
        requires
            old(self).wf(),
            live(old(self).tok_model()),
            b is Some ==> old(self).tok_model().pos < old(self).buffer().len() as int,
            b is Some ==> old(self).tok_model().pos < usize::MAX as int,
        ensures
            final(self).wf(),
            final(self).input_chunk == old(self).input_chunk,
            final(self).tok_model() == spec_step(old(self).tok_model(), b),
    {
        proof {
            crate::tokenizer::state_machine::lemma_step_wf(old(self).tok_model(), b);
        }
        let bv: u8;
        match b {
            None => {
                let flush = match self.state {
                    TokenizerState::Data
                    | TokenizerState::CdataSection
                    | TokenizerState::CdataBracket
                    | TokenizerState::CdataEnd
                    | TokenizerState::RawText
                    | TokenizerState::RawTextLt
                    | TokenizerState::RawTextEndTagOpen
                    | TokenizerState::RawTextEndTagName
                    | TokenizerState::RawTextStartTagName => true,
                    _ => false,
                };
                if flush {
                    self.emit_char_run(self.pos);
                }
                self.finished = true;
                let unit = LexUnit {
                    token: TokenView::Eof,
                    raw_range: SliceRange { start: self.pos, end: self.pos },
                };
                proof {
                    self.units@ = self.units@.push(unit@);
                }
                self.lex_unit_handler.handle(&unit);
                return ;
            },
            Some(x) => {
                bv = x;
            },
        }
        match self.state {
            TokenizerState::Data
            | TokenizerState::TagOpen
            | TokenizerState::EndTagOpen
            | TokenizerState::TagName => {
                self.step_tag_states(bv);
            },
            TokenizerState::BeforeAttributeName
            | TokenizerState::AttributeName
            | TokenizerState::AfterAttributeName
            | TokenizerState::BeforeAttributeValue
            | TokenizerState::AttributeValueQuoted
            | TokenizerState::AttributeValueUnquoted
            | TokenizerState::AfterAttributeValueQuoted
            | TokenizerState::SelfClosingStartTag => {
                self.step_attr_states(bv);
            },
            TokenizerState::MarkupDeclaration
            | TokenizerState::CommentStartDash
            | TokenizerState::Comment
            | TokenizerState::CommentEndDash
            | TokenizerState::CommentEnd
            | TokenizerState::BogusComment => {
                self.step_comment_states(bv);
            },
            TokenizerState::CdataOpenC
            | TokenizerState::CdataOpenD
            | TokenizerState::CdataOpenA1
            | TokenizerState::CdataOpenT
            | TokenizerState::CdataOpenA2
            | TokenizerState::CdataOpenBracket
            | TokenizerState::CdataSection
            | TokenizerState::CdataBracket
            | TokenizerState::CdataEnd => {
                self.step_cdata_states(bv);
            },
            TokenizerState::RawText
            | TokenizerState::RawTextLt
            | TokenizerState::RawTextEndTagOpen
            | TokenizerState::RawTextEndTagName
            | TokenizerState::RawTextStartTagName => {
                self.step_raw_states(bv);
            },
        }
        self.pos = self.pos + 1;
    }

    #[verifier::rlimit(100)]
    fn step_tag_states(&mut self, bv: u8)
        requires
            old(self).wf(),
            old(self).tok_model().pos < usize::MAX as int,
            ({
            ||| old(self).tok_model().state is Data
            ||| old(self).tok_model().state is TagOpen
            ||| old(self).tok_model().state is EndTagOpen
            ||| old(self).tok_model().state is TagName
        }),
        ensures
            final(self).input_chunk == old(self).input_chunk,
            final(self).tok_model() == crate::tokenizer::state_machine::step_byte(
                old(self).tok_model(),
                bv,
            ),
    {
        match self.state {
            TokenizerState::Data => {
                if bv == 60 {
                    self.emit_char_run(self.pos);
                    self.raw_start = self.pos;
                    self.state = TokenizerState::TagOpen;
                }
            },
            TokenizerState::TagOpen => {
                if is_ascii_letter(bv) {
                    self.current_token = Some(
                        CurrentToken::StartTag {
                            name: SliceRange { start: 0, end: 0 },
                            self_closing: false,
                        },
                    );
                    self.current_attr = None;
                    self.attr_buffer = Vec::new();
                    let mut nb: Vec<u8> = Vec::new();
                    nb.push(fold_byte(bv));
                    self.name_buf = nb;
                    self.token_part_start = self.pos - self.raw_start;
                    self.state = TokenizerState::TagName;
                } else if bv == 47 {
                    self.state = TokenizerState::EndTagOpen;
                } else if bv == 33 {
                    self.state = TokenizerState::MarkupDeclaration;
                } else if bv == 63 {
                    self.enter_bogus(bv);
                } else if bv == 60 {
                    self.emit_char_run(self.pos);
                    self.raw_start = self.pos;
                } else {
                    self.state = TokenizerState::Data;
                }
            },
            TokenizerState::EndTagOpen => {
                if is_ascii_letter(bv) {
                    self.current_token = Some(
                        CurrentToken::EndTag { name: SliceRange { start: 0, end: 0 } },
                    );
                    let mut nb: Vec<u8> = Vec::new();
                    nb.push(fold_byte(bv));
                    self.name_buf = nb;
                    self.token_part_start = self.pos - self.raw_start;
                    self.state = TokenizerState::TagName;
                } else if bv == 62 {
                    self.state = TokenizerState::Data;
                } else {
                    self.enter_bogus(bv);
                }
            },
            TokenizerState::TagName => {
                if is_whitespace(bv) {
                    self.do_set_tag_name();
                    self.state = TokenizerState::BeforeAttributeName;
                } else if bv == 47 {
                    self.do_set_tag_name();
                    self.state = TokenizerState::SelfClosingStartTag;
                } else if bv == 62 {
                    self.do_set_tag_name();
                    self.emit_tag_unit();
                } else {
                    self.name_buf.push(fold_byte(bv));
                }
            },
            _ => {
            },
        }
    }

    #[verifier::rlimit(100)]
    fn step_attr_states(&mut self, bv: u8)
        requires
            old(self).wf(),
            old(self).tok_model().pos < usize::MAX as int,
            ({
            ||| old(self).tok_model().state is BeforeAttributeName
            ||| old(self).tok_model().state is AttributeName
            ||| old(self).tok_model().state is AfterAttributeName
            ||| old(self).tok_model().state is BeforeAttributeValue
            ||| old(self).tok_model().state is AttributeValueQuoted
            ||| old(self).tok_model().state is AttributeValueUnquoted
            ||| old(self).tok_model().state is AfterAttributeValueQuoted
            ||| old(self).tok_model().state is SelfClosingStartTag
        }),
        ensures
            final(self).input_chunk == old(self).input_chunk,
            final(self).tok_model() == crate::tokenizer::state_machine::step_byte(
                old(self).tok_model(),
                bv,
            ),
    {
        match self.state {
            TokenizerState::BeforeAttributeName => {
                if is_whitespace(bv) {
                } else if bv == 47 {
                    self.state = TokenizerState::SelfClosingStartTag;
                } else if bv == 62 {
                    self.emit_tag_unit();
                } else {
                    self.do_start_attr();
                }
            },
            TokenizerState::AttributeName => {
                if is_whitespace(bv) {
                    self.do_finish_attr_name();
                    self.state = TokenizerState::AfterAttributeName;
                } else if bv == 61 {
                    self.do_finish_attr_name();
                    self.state = TokenizerState::BeforeAttributeValue;
                } else if bv == 47 {
                    self.do_finish_attr_name();
                    self.do_push_attr_empty();
                    self.state = TokenizerState::SelfClosingStartTag;
                } else if bv == 62 {
                    self.do_finish_attr_name();
                    self.do_push_attr_empty();
                    self.emit_tag_unit();
                }
            },
            TokenizerState::AfterAttributeName => {
                if is_whitespace(bv) {
                } else if bv == 61 {
                    self.state = TokenizerState::BeforeAttributeValue;
                } else if bv == 47 {
                    self.do_push_attr_empty();
                    self.state = TokenizerState::SelfClosingStartTag;
                } else if bv == 62 {
                    self.do_push_attr_empty();
                    self.emit_tag_unit();
                } else {
                    self.do_push_attr_empty();
                    self.do_start_attr();
                }
            },
            TokenizerState::BeforeAttributeValue => {
                if is_whitespace(bv) {
                } else if bv == 34 || bv == 39 {
                    self.closing_quote = bv;
                    self.token_part_start = self.pos + 1 - self.raw_start;
                    self.state = TokenizerState::AttributeValueQuoted;
                } else if bv == 62 {
                    self.do_push_attr_empty();
                    self.emit_tag_unit();
                } else {
                    self.token_part_start = self.pos - self.raw_start;
                    self.state = TokenizerState::AttributeValueUnquoted;
                }
            },
            TokenizerState::AttributeValueQuoted => {
                if bv == self.closing_quote {
                    self.do_push_attr_value();
                    self.state = TokenizerState::AfterAttributeValueQuoted;
                }
            },
            TokenizerState::AttributeValueUnquoted => {
                if is_whitespace(bv) {
                    self.do_push_attr_value();
                    self.state = TokenizerState::BeforeAttributeName;
                } else if bv == 62 {
                    self.do_push_attr_value();
                    self.emit_tag_unit();
                }
            },
            TokenizerState::AfterAttributeValueQuoted => {
                if is_whitespace(bv) {
                    self.state = TokenizerState::BeforeAttributeName;
                } else if bv == 47 {
                    self.state = TokenizerState::SelfClosingStartTag;
                } else if bv == 62 {
                    self.emit_tag_unit();
                } else {
                    self.do_start_attr();
                }
            },
            TokenizerState::SelfClosingStartTag => {
                if bv == 62 {
                    match self.current_token {
                        Some(CurrentToken::StartTag { name, self_closing }) => {
                            self.current_token = Some(
                                CurrentToken::StartTag { name, self_closing: true },
                            );
                        },
                        _ => {},
                    }
                    self.emit_tag_unit();
                } else {
                    self.state = TokenizerState::BeforeAttributeName;
                }
            },
            _ => {
            },
        }
    }

    #[verifier::rlimit(100)]
    fn step_comment_states(&mut self, bv: u8)
        requires
            old(self).wf(),
            old(self).tok_model().pos < usize::MAX as int,
            ({
            ||| old(self).tok_model().state is MarkupDeclaration
            ||| old(self).tok_model().state is CommentStartDash
            ||| old(self).tok_model().state is Comment
            ||| old(self).tok_model().state is CommentEndDash
            ||| old(self).tok_model().state is CommentEnd
            ||| old(self).tok_model().state is BogusComment
        }),
        ensures
            final(self).input_chunk == old(self).input_chunk,
            final(self).tok_model() == crate::tokenizer::state_machine::step_byte(
                old(self).tok_model(),
                bv,
            ),
    {
        match self.state {
            TokenizerState::MarkupDeclaration => {
                if bv == 45 {
                    self.state = TokenizerState::CommentStartDash;
                } else if bv == 91 && self.tree_builder_simulator.allow_cdata() {
                    self.state = TokenizerState::CdataOpenC;
                } else {
                    self.enter_bogus(bv);
                }
            },
            TokenizerState::CommentStartDash => {
                if bv == 45 {
                    self.token_part_start = self.pos + 1 - self.raw_start;
                    self.state = TokenizerState::Comment;
                } else {
                    self.enter_bogus(bv);
                }
            },
            TokenizerState::Comment => {
                if bv == 45 {
                    self.state = TokenizerState::CommentEndDash;
                }
            },
            TokenizerState::CommentEndDash => {
                if bv == 45 {
                    self.state = TokenizerState::CommentEnd;
                } else {
                    self.state = TokenizerState::Comment;
                }
            },
            TokenizerState::CommentEnd => {
                if bv == 62 {
                    self.emit_comment_unit(self.pos - 2 - self.raw_start);
                } else if bv == 45 {
                } else {
                    self.state = TokenizerState::Comment;
                }
            },
            TokenizerState::BogusComment => {
                if bv == 62 {
                    self.emit_comment_unit(self.pos - self.raw_start);
                }
            },
            _ => {
            },
        }
    }

    #[verifier::rlimit(100)]
    fn step_cdata_states(&mut self, bv: u8)
        requires
            old(self).wf(),
            old(self).tok_model().pos < usize::MAX as int,
            ({
            ||| old(self).tok_model().state is CdataOpenC
            ||| old(self).tok_model().state is CdataOpenD
            ||| old(self).tok_model().state is CdataOpenA1
            ||| old(self).tok_model().state is CdataOpenT
            ||| old(self).tok_model().state is CdataOpenA2
            ||| old(self).tok_model().state is CdataOpenBracket
            ||| old(self).tok_model().state is CdataSection
            ||| old(self).tok_model().state is CdataBracket
            ||| old(self).tok_model().state is CdataEnd
        }),
        ensures
            final(self).input_chunk == old(self).input_chunk,
            final(self).tok_model() == crate::tokenizer::state_machine::step_byte(
                old(self).tok_model(),
                bv,
            ),
    {
        match self.state {
            TokenizerState::CdataOpenC => {
                if bv == 67 {
                    self.state = TokenizerState::CdataOpenD;
                } else {
                    self.enter_bogus(bv);
                }
            },
            TokenizerState::CdataOpenD => {
                if bv == 68 {
                    self.state = TokenizerState::CdataOpenA1;
                } else {
                    self.enter_bogus(bv);
                }
            },
            TokenizerState::CdataOpenA1 => {
                if bv == 65 {
                    self.state = TokenizerState::CdataOpenT;
                } else {
                    self.enter_bogus(bv);
                }
            },
            TokenizerState::CdataOpenT => {
                if bv == 84 {
                    self.state = TokenizerState::CdataOpenA2;
                } else {
                    self.enter_bogus(bv);
                }
            },
            TokenizerState::CdataOpenA2 => {
                if bv == 65 {
                    self.state = TokenizerState::CdataOpenBracket;
                } else {
                    self.enter_bogus(bv);
                }
            },
            TokenizerState::CdataOpenBracket => {
                if bv == 91 {
                    self.state = TokenizerState::CdataSection;
                    self.mode = TextParsingMode::CDataSection;
                    self.raw_start = self.pos + 1;
                } else {
                    self.enter_bogus(bv);
                }
            },
            TokenizerState::CdataSection => {
                if bv == 93 {
                    self.state = TokenizerState::CdataBracket;
                }
            },
            TokenizerState::CdataBracket => {
                if bv == 93 {
                    self.state = TokenizerState::CdataEnd;
                } else {
                    self.state = TokenizerState::CdataSection;
                }
            },
            TokenizerState::CdataEnd => {
                if bv == 62 {
                    self.emit_char_run(self.pos - 2);
                    self.state = TokenizerState::Data;
                    self.mode = TextParsingMode::Data;
                    self.raw_start = self.pos + 1;
                } else if bv == 93 {
                } else {
                    self.state = TokenizerState::CdataSection;
                }
            },
            _ => {
            },
        }
    }

    #[verifier::rlimit(100)]
    fn step_raw_states(&mut self, bv: u8)
        requires
            old(self).wf(),
            old(self).tok_model().pos < usize::MAX as int,
            ({
            ||| old(self).tok_model().state is RawText
            ||| old(self).tok_model().state is RawTextLt
            ||| old(self).tok_model().state is RawTextEndTagOpen
            ||| old(self).tok_model().state is RawTextEndTagName
            ||| old(self).tok_model().state is RawTextStartTagName
        }),
        ensures
            final(self).input_chunk == old(self).input_chunk,
            final(self).tok_model() == crate::tokenizer::state_machine::step_byte(
                old(self).tok_model(),
                bv,
            ),
    {
        match self.state {
            TokenizerState::RawText => {
                if bv == 60 && !matches!(self.mode, TextParsingMode::PlainText) {
                    self.lt_pos = self.pos;
                    self.state = TokenizerState::RawTextLt;
                }
            },
            TokenizerState::RawTextLt => {
                if bv == 47 {
                    self.state = TokenizerState::RawTextEndTagOpen;
                } else if is_ascii_letter(bv) {
                    let mut nb: Vec<u8> = Vec::new();
                    nb.push(fold_byte(bv));
                    self.name_buf = nb;
                    self.state = TokenizerState::RawTextStartTagName;
                } else if bv == 60 {
                    self.lt_pos = self.pos;
                } else {
                    self.state = TokenizerState::RawText;
                }
            },
            TokenizerState::RawTextEndTagOpen => {
                if is_ascii_letter(bv) {
                    let mut nb: Vec<u8> = Vec::new();
                    nb.push(fold_byte(bv));
                    self.name_buf = nb;
                    self.state = TokenizerState::RawTextEndTagName;
                } else if bv == 60 {
                    self.lt_pos = self.pos;
                    self.state = TokenizerState::RawTextLt;
                } else {
                    self.state = TokenizerState::RawText;
                }
            },
            TokenizerState::RawTextEndTagName => {
                if is_ascii_letter(bv) || is_ascii_digit(bv) {
                    self.name_buf.push(fold_byte(bv));
                } else if is_whitespace(bv) || bv == 47 || bv == 62 {
                    if self.raw_name_match() {
                        self.emit_char_run(self.lt_pos);
                        self.raw_start = self.lt_pos;
                        self.token_part_start = 2;
                        self.current_token = Some(
                            CurrentToken::EndTag {
                                name: SliceRange { start: 2, end: self.pos - self.lt_pos },
                            },
                        );
                        self.current_attr = None;
                        if bv == 62 {
                            self.emit_tag_unit();
                        } else if bv == 47 {
                            self.state = TokenizerState::SelfClosingStartTag;
                        } else {
                            self.state = TokenizerState::BeforeAttributeName;
                        }
                    } else {
                        self.state = TokenizerState::RawText;
                    }
                } else if bv == 60 {
                    self.lt_pos = self.pos;
                    self.state = TokenizerState::RawTextLt;
                } else {
                    self.state = TokenizerState::RawText;
                }
            },
            TokenizerState::RawTextStartTagName => {
                if is_ascii_letter(bv) || is_ascii_digit(bv) {
                    self.name_buf.push(fold_byte(bv));
                } else if is_whitespace(bv) || bv == 47 || bv == 62 {
                    if self.raw_name_match() {
                        match self.tree_builder_simulator.note_nested_start() {
                            Err(reason) => {
                                self.bailed = Some(reason);
                            },
                            Ok(_) => {
                                self.state = TokenizerState::RawText;
                            },
                        }
                    } else {
                        self.state = TokenizerState::RawText;
                    }
                } else if bv == 60 {
                    self.lt_pos = self.pos;
                    self.state = TokenizerState::RawTextLt;
                } else {
                    self.state = TokenizerState::RawText;
                }
            },
            _ => {
            },
        }
    }

    /// Whether the candidate name scanned in raw text matches the
    /// cached hash of the governing element's name.
    fn raw_name_match(&self) -> (r: bool)
        ensures
            r == crate::tokenizer::state_machine::raw_name_matches(self.tok_model()),
    {
        let candidate = tag_name_hash(&self.name_buf);
        match (candidate, self.last_start_tag_name_hash) {
            (Some(ch), Some(lh)) => ch == lh,
            _ => false,
        }
    }
}

fn is_whitespace(b: u8) -> (r: bool)
    ensures
        r == is_ws(b),
{
    b == 32 || b == 9 || b == 10 || b == 13 || b == 12
}

fn is_ascii_letter(b: u8) -> (r: bool)
    ensures
        r == is_letter(b),
{
    (65 <= b && b <= 90) || (97 <= b && b <= 122)
}

fn is_ascii_digit(b: u8) -> (r: bool)
    ensures
        r == is_digit(b),
{
    48 <= b && b <= 57
}

fn state_for_mode_exec(mode: TextParsingMode) -> (r: TokenizerState)
    ensures
        r == state_for_mode(mode),
{
    match mode {
        TextParsingMode::Data => TokenizerState::Data,
        TextParsingMode::CDataSection => TokenizerState::Data,
        _ => TokenizerState::RawText,
    }
}

} // verus!
