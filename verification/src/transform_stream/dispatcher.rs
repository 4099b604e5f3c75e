//! The dispatcher: mediates between the parsing layer, the
//! transformation policy and the output sink, and guarantees that
//! every input byte reaches the sink exactly once — either verbatim,
//! or replaced by the serialized form of the rewritten token that
//! covered it.
//!
//! The guarantee is carried by `output_accounts_for`: the
//! concatenation of everything sent to the sink equals the input
//! prefix up to the dispatcher's cursor with exactly the recorded
//! replaced ranges substituted by their serialized output — every
//! other byte appears exactly once, in order.  The sequence of slices
//! is tracked as well: mid-stream sends are never empty, and the
//! empty slice — the documented signal that no more output follows —
//! is sent exactly once, by `finish`, as the last slice.

use crate::transform_stream::lexeme::{
    non_tag_lexeme_wf, tag_lexeme_wf, NonTagContentLexeme, TagLexeme, TagTokenOutline,
};
use crate::transform_stream::token::{
    captures_non_tag, captures_tag, copy_range, flags_any, serialize_token, Token,
    TokenCaptureFlags, TokenCapturer, TokenModel,
};
use crate::transform_stream::{
    AuxiliaryElementInfo, DispatchError, ElementStartResponse, LocalName, OutputSink,
    ParserDirective, TransformController,
};
use crate::tokenizer::lex_unit::{clone_attributes, SliceRange};
use vstd::prelude::*;

verus! {

/// One rewritten region: the raw byte range that was withheld from
/// verbatim output, and the serialized bytes emitted in its place.
pub struct ReplacedRange {
    pub start: int,
    pub end: int,
    pub out: Seq<u8>,
}

/// Replaced ranges are ordered, disjoint and lie below `upto`.
pub open spec fn reps_wf(reps: Seq<ReplacedRange>, upto: int) -> bool {
    forall|i: int|
        0 <= i < reps.len() ==> {
            &&& 0 <= (#[trigger] reps[i]).start <= reps[i].end <= upto
            &&& (i > 0 ==> reps[i - 1].end <= reps[i].start)
        }
}

/// The input prefix `[0, upto)` with every replaced range substituted
/// by its recorded output.
pub open spec fn splice(input: Seq<u8>, reps: Seq<ReplacedRange>, upto: int) -> Seq<u8>
    decreases reps.len(),
{
    if reps.len() == 0 {
        input.subrange(0, upto)
    } else {
        splice(input, reps.drop_last(), reps.last().start) + reps.last().out + input.subrange(
            reps.last().end,
            upto,
        )
    }
}

/// Moving the cut past the last replaced range appends the verbatim
/// bytes in between.
pub proof fn lemma_splice_extend(input: Seq<u8>, reps: Seq<ReplacedRange>, a: int, b: int)
    requires
        reps_wf(reps, a),
        0 <= a <= b <= input.len(),
    ensures
        splice(input, reps, b) == splice(input, reps, a) + input.subrange(a, b),
{
    if reps.len() == 0 {
        assert(splice(input, reps, b) =~= splice(input, reps, a) + input.subrange(a, b));
    } else {
        let last = reps.last();
        assert(reps[reps.len() - 1] == last);
        assert(last.end <= a);
        assert(input.subrange(last.end, b) =~= input.subrange(last.end, a) + input.subrange(a, b));
        assert(splice(input, reps, b) =~= splice(input, reps, a) + input.subrange(a, b));
    }
}

/// With no replacements recorded the spliced output is the input
/// prefix itself: a policy that requests no captures gets
/// byte-for-byte passthrough.
pub proof fn lemma_passthrough(input: Seq<u8>, upto: int)
    requires
        0 <= upto <= input.len(),
    ensures
        splice(input, Seq::<ReplacedRange>::empty(), upto) == input.subrange(0, upto),
{
}

/// Passthrough fidelity: a dispatcher that recorded no replacements —
/// as happens under a policy that never requests captures, whose
/// handlers provably leave the replacement list untouched — has sent
/// to the sink exactly the flushed output of earlier chunks followed
/// by the consumed input prefix, byte for byte.
pub proof fn lemma_passthrough_fidelity<C: TransformController, O: OutputSink>(
    d: Dispatcher<C, O>,
    input: Seq<u8>,
)
    requires
        d.output_accounts_for(input),
        d.replacements().len() == 0,
        d.cursor() <= input.len(),
    ensures
        d.emitted() == d.flushed_output() + input.subrange(0, d.cursor()),
{
    lemma_passthrough(input, d.cursor());
}

/// The concatenation of a sequence of sink chunks.
pub open spec fn chunks_flat(chunks: Seq<Seq<u8>>) -> Seq<u8>
    decreases chunks.len(),
{
    if chunks.len() == 0 {
        Seq::empty()
    } else {
        chunks_flat(chunks.drop_last()) + chunks.last()
    }
}

/// `b` extends `a` with nonempty chunks only: all a mid-stream
/// emitter may do, since the empty chunk is the end-of-output signal.
pub open spec fn appends_nonempty(a: Seq<Seq<u8>>, b: Seq<Seq<u8>>) -> bool {
    &&& a.len() <= b.len()
    &&& forall|k: int| 0 <= k < a.len() ==> a[k] == #[trigger] b[k]
    &&& forall|k: int| a.len() <= k < b.len() ==> (#[trigger] b[k]).len() > 0
}

proof fn lemma_chunks_flat_push(chunks: Seq<Seq<u8>>, c: Seq<u8>)
    ensures
        chunks_flat(chunks.push(c)) == chunks_flat(chunks) + c,
{
    assert(chunks.push(c).drop_last() =~= chunks);
}

proof fn lemma_appends_nonempty_trans(a: Seq<Seq<u8>>, b: Seq<Seq<u8>>, c: Seq<Seq<u8>>)
    requires
        appends_nonempty(a, b),
        appends_nonempty(b, c),
    ensures
        appends_nonempty(a, c),
{
}

pub struct Dispatcher<C: TransformController, O: OutputSink> {
    transform_controller: C,
    output_sink: O,
    last_consumed_lexeme_end: usize,
    token_capturer: TokenCapturer,
    got_flags_from_hint: bool,
    pending_element_aux_info_req: bool,
    emitted: Ghost<Seq<u8>>,
    replaced: Ghost<Seq<ReplacedRange>>,
    flushed: Ghost<Seq<u8>>,
    sent: Ghost<Seq<Seq<u8>>>,
}

impl<C: TransformController, O: OutputSink> Dispatcher<C, O> {
    /// The end of the last input region already consumed (emitted or
    /// replaced); advances monotonically within a chunk.
    pub closed spec fn cursor(&self) -> int {
        self.last_consumed_lexeme_end as int
    }

    /// Concatenation of every byte slice handed to the output sink.
    pub closed spec fn emitted(&self) -> Seq<u8> {
        self.emitted@
    }

    /// The byte slices handed to the output sink, in order: one
    /// entry per `handle_chunk` call.
    pub closed spec fn sent_chunks(&self) -> Seq<Seq<u8>> {
        self.sent@
    }

    /// The replacements recorded for the current chunk.
    pub closed spec fn replacements(&self) -> Seq<ReplacedRange> {
        self.replaced@
    }

    /// Output already accounted to fully flushed earlier chunks.
    pub closed spec fn flushed_output(&self) -> Seq<u8> {
        self.flushed@
    }

    pub closed spec fn flags(&self) -> TokenCaptureFlags {
        self.token_capturer.flags()
    }

    pub closed spec fn pending(&self) -> bool {
        self.pending_element_aux_info_req
    }

    pub closed spec fn got_hint(&self) -> bool {
        self.got_flags_from_hint
    }

    /// Exactly-once byte emission, relative to the current chunk:
    /// everything sent to the sink is the flushed output of earlier
    /// chunks followed by this chunk's prefix up to the cursor, with
    /// exactly the recorded replaced ranges substituted.
    pub open spec fn output_accounts_for(&self, input: Seq<u8>) -> bool {
        &&& reps_wf(self.replacements(), self.cursor())
        &&& 0 <= self.cursor()
        &&& self.emitted() == self.flushed_output() + splice(
            input,
            self.replacements(),
            self.cursor(),
        )
        &&& self.emitted() == chunks_flat(self.sent_chunks())
    }

    pub fn new(transform_controller: C, output_sink: O, encoding: &'static encoding_rs::Encoding) -> (r:
        Self)
        ensures
            r.cursor() == 0,
            r.replacements() == Seq::<ReplacedRange>::empty(),
            r.emitted() == Seq::<u8>::empty(),
            r.flushed_output() == Seq::<u8>::empty(),
            !r.pending(),
            !r.got_hint(),
            r.sent_chunks() == Seq::<Seq<u8>>::empty(),
            forall|input: Seq<u8>| r.output_accounts_for(input),
    {
        let initial_capture_flags = transform_controller.initial_capture_flags();
        let r = Dispatcher {
            transform_controller,
            output_sink,
            last_consumed_lexeme_end: 0,
            token_capturer: TokenCapturer::new(initial_capture_flags, encoding),
            got_flags_from_hint: false,
            pending_element_aux_info_req: false,
            emitted: Ghost(Seq::empty()),
            replaced: Ghost(Seq::empty()),
            flushed: Ghost(Seq::empty()),
            sent: Ghost(Seq::empty()),
        };
        proof {
            assert forall|input: Seq<u8>| r.output_accounts_for(input) by {
                assert(r.emitted() =~= r.flushed_output() + splice(input, r.replacements(), 0));
                assert(r.emitted() =~= chunks_flat(r.sent_chunks()));
            }
        }
        r
    }

    /// Flushes the not-yet-consumed input verbatim, withholding the
    /// trailing `blocked_byte_count` bytes (possibly-incomplete
    /// content), and re-bases the cursor for the next chunk.
    pub fn flush_remaining_input(&mut self, input: &[u8], blocked_byte_count: usize)
        requires
            old(self).output_accounts_for(input@),
            blocked_byte_count <= input@.len(),
            old(self).cursor() <= input@.len() - blocked_byte_count,
        ensures
            final(self).emitted() == old(self).emitted() + input@.subrange(
                old(self).cursor(),
                input@.len() - blocked_byte_count,
            ),
            final(self).cursor() == 0,
            final(self).replacements() == Seq::<ReplacedRange>::empty(),
            final(self).flushed_output() == final(self).emitted(),
            final(self).flags() == old(self).flags(),
            final(self).pending() == old(self).pending(),
            final(self).got_hint() == old(self).got_hint(),
            appends_nonempty(old(self).sent_chunks(), final(self).sent_chunks()),
            final(self).emitted() == chunks_flat(final(self).sent_chunks()),
            forall|next: Seq<u8>| final(self).output_accounts_for(next),
    {
        let upto = input.len() - blocked_byte_count;
        let ghost s0 = self.sent@;
        let output = copy_range(input, self.last_consumed_lexeme_end, upto);
        if output.len() > 0 {
            self.output_sink.handle_chunk(output.as_slice());
            proof {
                self.sent@ = self.sent@.push(output@);
                lemma_chunks_flat_push(s0, output@);
            }
        }
        proof {
            self.emitted@ = self.emitted@ + output@;
            self.replaced@ = Seq::empty();
            self.flushed@ = self.emitted@;
            assert(self.emitted@ =~= chunks_flat(self.sent@));
            assert(appends_nonempty(s0, self.sent@));
        }
        self.last_consumed_lexeme_end = 0;
        proof {
            assert forall|next: Seq<u8>| final(self).output_accounts_for(next) by {
                assert(self.emitted@ =~= self.flushed@ + splice(next, Seq::empty(), 0));
            }
        }
    }

    /// Stream end: flushes everything and sends the empty terminating
    /// chunk that tells the sink no more output follows.
    pub fn finish(&mut self, input: &[u8])
        requires
            old(self).output_accounts_for(input@),
            old(self).cursor() <= input@.len(),
        ensures
            final(self).emitted() == old(self).emitted() + input@.subrange(
                old(self).cursor(),
                input@.len() as int,
            ),
            final(self).cursor() == 0,
            final(self).replacements() == Seq::<ReplacedRange>::empty(),
            final(self).flushed_output() == final(self).emitted(),
            final(self).sent_chunks().len() >= 1,
            final(self).sent_chunks().last() == Seq::<u8>::empty(),
            appends_nonempty(old(self).sent_chunks(), final(self).sent_chunks().drop_last()),
            forall|next: Seq<u8>| final(self).output_accounts_for(next),
    {
        self.flush_remaining_input(input, 0);
        let ghost s1 = self.sent@;
        let terminator: Vec<u8> = Vec::new();
        self.output_sink.handle_chunk(terminator.as_slice());
        proof {
            self.sent@ = self.sent@.push(Seq::empty());
            lemma_chunks_flat_push(s1, Seq::empty());
            assert(self.sent@.drop_last() =~= s1);
            assert(self.emitted@ =~= chunks_flat(self.sent@));
            assert forall|next: Seq<u8>| final(self).output_accounts_for(next) by {
                assert(self.emitted@ =~= self.flushed@ + splice(next, Seq::empty(), 0));
            }
        }
    }

    /// `Lex` while any capture is active, else cheap tag scanning.
    pub fn get_next_parser_directive(&self) -> (r: ParserDirective)
        ensures
            r == ParserDirective::Lex <==> flags_any(self.flags()),
    {
        if self.token_capturer.has_captures() {
            ParserDirective::Lex
        } else {
            ParserDirective::ScanForTags
        }
    }

    /// Consults the transformation policy for this tag: with the
    /// auxiliary-info two-step honored when a hint requested it, or
    /// directly by element name.  A pending auxiliary-info request
    /// followed by anything but a fully-lexed start tag is a protocol
    /// violation, reported as a typed error.
    fn adjust_capture_flags_for_tag_lexeme(&mut self, input: &[u8], lexeme: &TagLexeme) -> (r:
        Result<(), DispatchError>)
        requires
            tag_lexeme_wf(input@, *lexeme),
        ensures
            final(self).emitted() == old(self).emitted(),
            final(self).cursor() == old(self).cursor(),
            final(self).replacements() == old(self).replacements(),
            final(self).flushed_output() == old(self).flushed_output(),
            final(self).sent_chunks() == old(self).sent_chunks(),
            final(self).got_hint() == old(self).got_hint(),
            !final(self).pending(),
            r is Err <==> (old(self).pending() && lexeme.outline is EndTag),
            r is Err ==> final(self).flags() == old(self).flags(),
    {
        if self.pending_element_aux_info_req {
            self.pending_element_aux_info_req = false;
            match &lexeme.outline {
                TagTokenOutline::StartTag { attributes, self_closing, .. } => {
                    let info = AuxiliaryElementInfo {
                        attributes: clone_attributes(attributes),
                        self_closing: *self_closing,
                    };
                    let flags = self.transform_controller.handle_auxiliary_element_info(&info);
                    self.token_capturer.set_capture_flags(flags);
                    Ok(())
                },
                TagTokenOutline::EndTag { .. } => Err(
                    DispatchError::PendingAuxiliaryInfoWithoutStartTag,
                ),
            }
        } else {
            match &lexeme.outline {
                TagTokenOutline::StartTag { name, name_hash, attributes, self_closing } => {
                    let base = lexeme.raw_range.start;
                    let local = LocalName::new(
                        input,
                        SliceRange { start: base + name.start, end: base + name.end },
                        *name_hash,
                    );
                    match self.transform_controller.handle_element_start(&local) {
                        ElementStartResponse::CaptureFlags(flags) => {
                            self.token_capturer.set_capture_flags(flags);
                        },
                        ElementStartResponse::RequestAuxiliaryElementInfo => {
                            let info = AuxiliaryElementInfo {
                                attributes: clone_attributes(attributes),
                                self_closing: *self_closing,
                            };
                            let flags = self.transform_controller.handle_auxiliary_element_info(
                                &info,
                            );
                            self.token_capturer.set_capture_flags(flags);
                        },
                    }
                    Ok(())
                },
                TagTokenOutline::EndTag { name, name_hash } => {
                    let base = lexeme.raw_range.start;
                    let local = LocalName::new(
                        input,
                        SliceRange { start: base + name.start, end: base + name.end },
                        *name_hash,
                    );
                    let flags = self.transform_controller.handle_element_end(&local);
                    self.token_capturer.set_capture_flags(flags);
                    Ok(())
                },
            }
        }
    }

    /// Feeds the lexeme to the capturer: if it is captured, the raw
    /// gap before it is flushed verbatim, the policy rewrites the
    /// token in place, and its serialized form is emitted instead of
    /// the lexeme's raw bytes.
    fn try_produce_token_from_tag_lexeme(&mut self, input: &[u8], lexeme: &TagLexeme)
        requires
            tag_lexeme_wf(input@, *lexeme),
            old(self).cursor() <= lexeme.raw_range.start,
            old(self).output_accounts_for(input@),
        ensures
            final(self).output_accounts_for(input@),
            final(self).flags() == old(self).flags(),
            final(self).pending() == old(self).pending(),
            final(self).got_hint() == old(self).got_hint(),
            final(self).flushed_output() == old(self).flushed_output(),
            appends_nonempty(old(self).sent_chunks(), final(self).sent_chunks()),
            !captures_tag(old(self).flags(), lexeme.outline) ==> {
                &&& final(self).emitted() == old(self).emitted()
                &&& final(self).cursor() == old(self).cursor()
                &&& final(self).replacements() == old(self).replacements()
            },
            captures_tag(old(self).flags(), lexeme.outline) ==> (exists|tm: TokenModel|
                {
                    &&& final(self).emitted() == old(self).emitted() + input@.subrange(
                        old(self).cursor(),
                        lexeme.raw_range.start as int,
                    ) + serialize_token(tm)
                    &&& final(self).replacements() == old(self).replacements().push(
                        ReplacedRange {
                            start: lexeme.raw_range.start as int,
                            end: lexeme.raw_range.end as int,
                            out: serialize_token(tm),
                        },
                    )
                    &&& final(self).cursor() == lexeme.raw_range.end
                }),
    {
        match self.token_capturer.feed_tag(input, lexeme) {
            None => {},
            Some(mut token) => {
                self.produce_token(input, lexeme.raw_range, &mut token);
            },
        }
    }

    /// As `try_produce_token_from_tag_lexeme`, for non-tag content.
    fn try_produce_token_from_non_tag_lexeme(&mut self, input: &[u8], lexeme: &NonTagContentLexeme)
        requires
            non_tag_lexeme_wf(input@, *lexeme),
            old(self).cursor() <= lexeme.raw_range.start,
            old(self).output_accounts_for(input@),
        ensures
            final(self).output_accounts_for(input@),
            final(self).flags() == old(self).flags(),
            final(self).pending() == old(self).pending(),
            final(self).got_hint() == old(self).got_hint(),
            final(self).flushed_output() == old(self).flushed_output(),
            appends_nonempty(old(self).sent_chunks(), final(self).sent_chunks()),
            !captures_non_tag(old(self).flags(), lexeme.outline) ==> {
                &&& final(self).emitted() == old(self).emitted()
                &&& final(self).cursor() == old(self).cursor()
                &&& final(self).replacements() == old(self).replacements()
            },
            captures_non_tag(old(self).flags(), lexeme.outline) ==> (exists|tm: TokenModel|
                {
                    &&& final(self).emitted() == old(self).emitted() + input@.subrange(
                        old(self).cursor(),
                        lexeme.raw_range.start as int,
                    ) + serialize_token(tm)
                    &&& final(self).replacements() == old(self).replacements().push(
                        ReplacedRange {
                            start: lexeme.raw_range.start as int,
                            end: lexeme.raw_range.end as int,
                            out: serialize_token(tm),
                        },
                    )
                    &&& final(self).cursor() == lexeme.raw_range.end
                }),
    {
        match self.token_capturer.feed_non_tag(input, lexeme) {
            None => {},
            Some(mut token) => {
                self.produce_token(input, lexeme.raw_range, &mut token);
            },
        }
    }

    /// The shared captured-lexeme path: flush the gap, let the policy
    /// mutate the token, emit its serialized form, advance the cursor.
    fn produce_token(&mut self, input: &[u8], raw_range: SliceRange, token: &mut Token)
        requires
            raw_range.start <= raw_range.end <= input@.len(),
            old(self).cursor() <= raw_range.start,
            old(self).output_accounts_for(input@),
        ensures
            final(self).output_accounts_for(input@),
            final(self).flags() == old(self).flags(),
            final(self).pending() == old(self).pending(),
            final(self).got_hint() == old(self).got_hint(),
            final(self).flushed_output() == old(self).flushed_output(),
            appends_nonempty(old(self).sent_chunks(), final(self).sent_chunks()),
            exists|tm: TokenModel|
                {
                    &&& final(self).emitted() == old(self).emitted() + input@.subrange(
                        old(self).cursor(),
                        raw_range.start as int,
                    ) + serialize_token(tm)
                    &&& final(self).replacements() == old(self).replacements().push(
                        ReplacedRange {
                            start: raw_range.start as int,
                            end: raw_range.end as int,
                            out: serialize_token(tm),
                        },
                    )
                    &&& final(self).cursor() == raw_range.end
                },
    {
        let ghost reps0 = self.replaced@;
        let ghost c0 = self.cursor();
        let ghost s0 = self.sent@;
        let gap = copy_range(input, self.last_consumed_lexeme_end, raw_range.start);
        if gap.len() > 0 {
            self.output_sink.handle_chunk(gap.as_slice());
            proof {
                self.sent@ = self.sent@.push(gap@);
                lemma_chunks_flat_push(s0, gap@);
            }
        }
        proof {
            self.emitted@ = self.emitted@ + gap@;
            assert(self.emitted@ =~= chunks_flat(self.sent@));
            assert(appends_nonempty(s0, self.sent@));
        }
        self.transform_controller.handle_token(token);
        let ghost tm = token@;
        let out = token.to_bytes();
        let ghost s1 = self.sent@;
        if out.len() > 0 {
            // An empty serialization (a deleted token) sends nothing:
            // the empty slice is reserved as the end-of-output signal.
            self.output_sink.handle_chunk(out.as_slice());
            proof {
                self.sent@ = self.sent@.push(out@);
                lemma_chunks_flat_push(s1, out@);
            }
        }
        let ghost rep = ReplacedRange {
            start: raw_range.start as int,
            end: raw_range.end as int,
            out: out@,
        };
        proof {
            self.emitted@ = self.emitted@ + out@;
            self.replaced@ = self.replaced@.push(rep);
            assert(self.emitted@ =~= chunks_flat(self.sent@));
            assert(appends_nonempty(s1, self.sent@));
        }
        self.last_consumed_lexeme_end = raw_range.end;
        proof {
            lemma_splice_extend(input@, reps0, c0, raw_range.start as int);
            assert(self.replaced@.drop_last() =~= reps0);
            assert(self.replaced@.last() == rep);
            assert(input@.subrange(rep.end, rep.end) =~= Seq::<u8>::empty());
            assert(splice(input@, self.replaced@, rep.end) =~= splice(input@, reps0, rep.start)
                + rep.out);
            assert(self.emitted@ =~= self.flushed@ + splice(input@, self.replaced@, rep.end));
            assert(reps_wf(self.replaced@, self.cursor()));
            assert(serialize_token(tm) == out@);
            lemma_appends_nonempty_trans(s0, s1, self.sent@);
        }
    }

    /// One fully-lexed tag: applies hint flags if they were already
    /// obtained, otherwise consults the policy, then produces either
    /// the verbatim gap or the rewritten token, and reports the next
    /// parser directive.
    pub fn handle_tag(&mut self, input: &[u8], lexeme: &TagLexeme) -> (r: Result<
        ParserDirective,
        DispatchError,
    >)
        requires
            tag_lexeme_wf(input@, *lexeme),
            old(self).cursor() <= lexeme.raw_range.start,
            old(self).output_accounts_for(input@),
        ensures
            final(self).output_accounts_for(input@),
            final(self).flushed_output() == old(self).flushed_output(),
            r is Err <==> (!old(self).got_hint() && old(self).pending() && lexeme.outline is EndTag),
            r is Err ==> {
                &&& final(self).emitted() == old(self).emitted()
                &&& final(self).cursor() == old(self).cursor()
                &&& final(self).replacements() == old(self).replacements()
                &&& final(self).sent_chunks() == old(self).sent_chunks()
            },
            appends_nonempty(old(self).sent_chunks(), final(self).sent_chunks()),
            r is Ok ==> !final(self).got_hint(),
            r is Ok ==> !final(self).pending(),
            r is Ok ==> (r->Ok_0 == ParserDirective::Lex <==> flags_any(final(self).flags())),
            r is Ok ==> ({
                ||| {
                    &&& !captures_tag(final(self).flags(), lexeme.outline)
                    &&& final(self).emitted() == old(self).emitted()
                    &&& final(self).cursor() == old(self).cursor()
                    &&& final(self).replacements() == old(self).replacements()
                }
                ||| {
                    &&& captures_tag(final(self).flags(), lexeme.outline)
                    &&& exists|tm: TokenModel|
                        {
                            &&& final(self).emitted() == old(self).emitted() + input@.subrange(
                                old(self).cursor(),
                                lexeme.raw_range.start as int,
                            ) + serialize_token(tm)
                            &&& final(self).replacements() == old(self).replacements().push(
                                ReplacedRange {
                                    start: lexeme.raw_range.start as int,
                                    end: lexeme.raw_range.end as int,
                                    out: serialize_token(tm),
                                },
                            )
                            &&& final(self).cursor() == lexeme.raw_range.end
                        }
                }
            }),
    {
        if self.got_flags_from_hint {
            self.got_flags_from_hint = false;
            self.pending_element_aux_info_req = false;
        } else {
            match self.adjust_capture_flags_for_tag_lexeme(input, lexeme) {
                Err(e) => {
                    return Err(e);
                },
                Ok(_) => {},
            }
        }
        self.try_produce_token_from_tag_lexeme(input, lexeme);
        Ok(self.get_next_parser_directive())
    }

    /// One non-tag lexeme (text run, comment, end of input).
    pub fn handle_non_tag_content(&mut self, input: &[u8], lexeme: &NonTagContentLexeme)
        requires
            non_tag_lexeme_wf(input@, *lexeme),
            old(self).cursor() <= lexeme.raw_range.start,
            old(self).output_accounts_for(input@),
        ensures
            final(self).output_accounts_for(input@),
            final(self).flags() == old(self).flags(),
            final(self).pending() == old(self).pending(),
            final(self).got_hint() == old(self).got_hint(),
            final(self).flushed_output() == old(self).flushed_output(),
            appends_nonempty(old(self).sent_chunks(), final(self).sent_chunks()),
            !captures_non_tag(old(self).flags(), lexeme.outline) ==> {
                &&& final(self).emitted() == old(self).emitted()
                &&& final(self).cursor() == old(self).cursor()
                &&& final(self).replacements() == old(self).replacements()
            },
            captures_non_tag(old(self).flags(), lexeme.outline) ==> (exists|tm: TokenModel|
                {
                    &&& final(self).emitted() == old(self).emitted() + input@.subrange(
                        old(self).cursor(),
                        lexeme.raw_range.start as int,
                    ) + serialize_token(tm)
                    &&& final(self).replacements() == old(self).replacements().push(
                        ReplacedRange {
                            start: lexeme.raw_range.start as int,
                            end: lexeme.raw_range.end as int,
                            out: serialize_token(tm),
                        },
                    )
                    &&& final(self).cursor() == lexeme.raw_range.end
                }),
    {
        self.try_produce_token_from_non_tag_lexeme(input, lexeme);
    }

    /// A cheap, name-only notification of an upcoming start tag,
    /// produced while the parser scans for tags.  The policy may
    /// answer with flags (remembered so the fully-lexed tag is not
    /// re-queried) or request auxiliary info, which obligates the
    /// next tag lexeme to be a fully-lexed start tag.
    pub fn handle_start_tag_hint(&mut self, tag_name: &LocalName) -> (r: ParserDirective)
        ensures
            final(self).emitted() == old(self).emitted(),
            final(self).cursor() == old(self).cursor(),
            final(self).replacements() == old(self).replacements(),
            final(self).flushed_output() == old(self).flushed_output(),
            final(self).sent_chunks() == old(self).sent_chunks(),
            ({
                ||| {
                    &&& final(self).pending()
                    &&& !final(self).got_hint()
                    &&& r == ParserDirective::Lex
                    &&& final(self).flags() == old(self).flags()
                }
                ||| {
                    &&& final(self).pending() == old(self).pending()
                    &&& final(self).got_hint()
                    &&& (r == ParserDirective::Lex <==> flags_any(final(self).flags()))
                }
            }),
    {
        match self.transform_controller.handle_element_start(tag_name) {
            ElementStartResponse::CaptureFlags(flags) => {
                self.token_capturer.set_capture_flags(flags);
                self.got_flags_from_hint = true;
                self.get_next_parser_directive()
            },
            ElementStartResponse::RequestAuxiliaryElementInfo => {
                self.pending_element_aux_info_req = true;
                self.got_flags_from_hint = false;
                ParserDirective::Lex
            },
        }
    }

    /// The end-tag counterpart of `handle_start_tag_hint`.
    pub fn handle_end_tag_hint(&mut self, tag_name: &LocalName) -> (r: ParserDirective)
        ensures
            final(self).emitted() == old(self).emitted(),
            final(self).cursor() == old(self).cursor(),
            final(self).replacements() == old(self).replacements(),
            final(self).flushed_output() == old(self).flushed_output(),
            final(self).sent_chunks() == old(self).sent_chunks(),
            final(self).pending() == old(self).pending(),
            final(self).got_hint(),
            r == ParserDirective::Lex <==> flags_any(final(self).flags()),
    {
        let flags = self.transform_controller.handle_element_end(tag_name);
        self.token_capturer.set_capture_flags(flags);
        self.got_flags_from_hint = true;
        self.get_next_parser_directive()
    }
}

} // verus!
