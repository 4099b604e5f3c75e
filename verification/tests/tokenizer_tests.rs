use html_rewriter_core::tokenizer::lex_unit::LexUnit;
use html_rewriter_core::tokenizer::lex_unit::SliceRange;
use html_rewriter_core::tokenizer::lex_unit::TokenView;
use html_rewriter_core::tokenizer::state_machine::TokenizerState;
use html_rewriter_core::tokenizer::tree_builder_simulator::TextParsingMode;
use html_rewriter_core::tokenizer::tree_builder_simulator::TextParsingModeChangeHandler;
use html_rewriter_core::tokenizer::tree_builder_simulator::MAX_TAG_NESTING;
use html_rewriter_core::tokenizer::tree_builder_simulator::SCRIPT_HASH;
use html_rewriter_core::tokenizer::LexUnitHandler;
use html_rewriter_core::tokenizer::Tokenizer;
use html_rewriter_core::tokenizer::TokenizerBailoutReason;

struct Collector {
    units: Vec<LexUnit>,
}

impl Collector {
    fn new() -> Self {
        Collector { units: Vec::new() }
    }
}

impl LexUnitHandler for Collector {
    fn handle(&mut self, lex_unit: &LexUnit) {
        self.units.push(lex_unit.clone());
    }
}

fn run(input: &[u8]) -> Result<Vec<LexUnit>, TokenizerBailoutReason> {
    let mut t = Tokenizer::new(4096, Collector::new());
    t.tokenize_chunk(input)?;
    t.end();
    Ok(t.lex_unit_handler().units.clone())
}

fn slice<'a>(input: &'a [u8], r: SliceRange) -> &'a [u8] {
    &input[r.start..r.end]
}

fn part<'a>(input: &'a [u8], raw: SliceRange, r: SliceRange) -> &'a [u8] {
    &input[raw.start + r.start..raw.start + r.end]
}

#[test]
fn basic_units() {
    let input = b"<div id=\"x\">Hello</div>";
    let units = run(input).unwrap();
    assert_eq!(units.len(), 4);
    match &units[0].token {
        TokenView::StartTag { name, attributes, self_closing } => {
            assert_eq!(part(input, units[0].raw_range, *name), b"div");
            assert!(!self_closing);
            assert_eq!(attributes.len(), 1);
            assert_eq!(part(input, units[0].raw_range, attributes[0].name), b"id");
            assert_eq!(part(input, units[0].raw_range, attributes[0].value), b"x");
        }
        other => panic!("expected start tag, got {:?}", other),
    }
    assert_eq!(units[1].token, TokenView::Character);
    assert_eq!(slice(input, units[1].raw_range), b"Hello");
    match &units[2].token {
        TokenView::EndTag { name } => {
            assert_eq!(part(input, units[2].raw_range, *name), b"div");
        }
        other => panic!("expected end tag, got {:?}", other),
    }
    assert_eq!(units[3].token, TokenView::Eof);
}

#[test]
fn chunk_boundary_invariance_all_splits() {
    let input: &[u8] = b"<script>a</script><b c=d>t<!--x-->";
    let whole = run(input).unwrap();
    for split in 0..=input.len() {
        let mut t = Tokenizer::new(4096, Collector::new());
        t.tokenize_chunk(&input[..split]).unwrap();
        t.tokenize_chunk(&input[split..]).unwrap();
        t.end();
        assert_eq!(t.lex_unit_handler().units.clone(), whole, "split at {}", split);
    }
}

#[test]
fn chunk_boundary_invariance_foreign_and_cdata() {
    let input: &[u8] = b"<svg><![CDATA[x]]></svg><textarea>a</textarea><br/>";
    let whole = run(input).unwrap();
    for split in 0..=input.len() {
        let mut t = Tokenizer::new(4096, Collector::new());
        t.tokenize_chunk(&input[..split]).unwrap();
        t.tokenize_chunk(&input[split..]).unwrap();
        t.end();
        assert_eq!(t.lex_unit_handler().units.clone(), whole, "split at {}", split);
    }
}

#[test]
fn empty_comment() {
    let input = b"<!---->";
    let units = run(input).unwrap();
    match &units[0].token {
        TokenView::Comment { text } => {
            assert_eq!(part(input, units[0].raw_range, *text), b"");
            assert_eq!(slice(input, units[0].raw_range), b"<!---->");
        }
        other => panic!("expected comment, got {:?}", other),
    }
}

#[test]
fn raw_text_boundary_correctness() {
    let input = b"<script>var x = \"</scr\" + \"ipt>\";</script>rest";
    let units = run(input).unwrap();
    assert_eq!(units.len(), 5);
    assert!(matches!(units[0].token, TokenView::StartTag { .. }));
    assert_eq!(units[1].token, TokenView::Character);
    assert_eq!(slice(input, units[1].raw_range), b"var x = \"</scr\" + \"ipt>\";");
    match &units[2].token {
        TokenView::EndTag { name } => {
            assert_eq!(part(input, units[2].raw_range, *name), b"script");
        }
        other => panic!("expected end tag, got {:?}", other),
    }
    assert_eq!(units[3].token, TokenView::Character);
    assert_eq!(slice(input, units[3].raw_range), b"rest");
    assert_eq!(units[4].token, TokenView::Eof);
}

#[test]
fn nesting_bound_enforcement() {
    // One governing <script> plus repeated identical start tags in its
    // raw text; the bound refuses the repetition that would push the
    // counter past MAX_TAG_NESTING, deterministically.
    let ok_input = b"<script>".repeat(MAX_TAG_NESTING);
    assert!(run(&ok_input).is_ok());
    let bad_input = b"<script>".repeat(MAX_TAG_NESTING + 1);
    assert_eq!(run(&bad_input), Err(TokenizerBailoutReason::MaxTagNestingReached));
    // The same count fails again: the failure point is a function of
    // the input alone.
    assert_eq!(run(&bad_input), Err(TokenizerBailoutReason::MaxTagNestingReached));

    // Feeding tag by tag, the bailout comes exactly at the repetition
    // that exceeds the bound.
    let mut t = Tokenizer::new(1 << 20, Collector::new());
    let mut failed_at = None;
    for i in 0..MAX_TAG_NESTING + 1 {
        match t.tokenize_chunk(b"<script>") {
            Ok(()) => {}
            Err(e) => {
                assert_eq!(e, TokenizerBailoutReason::MaxTagNestingReached);
                failed_at = Some(i);
                break;
            }
        }
    }
    assert_eq!(failed_at, Some(MAX_TAG_NESTING));
}

#[test]
fn capacity_bound() {
    let mut t = Tokenizer::new(8, Collector::new());
    assert_eq!(
        t.tokenize_chunk(b"0123456789"),
        Err(TokenizerBailoutReason::BufferCapacityExceeded)
    );
    // The failed write buffered nothing; writes that fit still work.
    assert_eq!(t.tokenize_chunk(b"abcde"), Ok(()));
    assert_eq!(
        t.tokenize_chunk(b"fghij"),
        Err(TokenizerBailoutReason::BufferCapacityExceeded)
    );
    assert_eq!(t.tokenize_chunk(b"fgh"), Ok(()));
    t.end();
    let units = t.lex_unit_handler().units.clone();
    assert_eq!(units.len(), 2);
    assert_eq!(units[0].token, TokenView::Character);
    assert_eq!(slice(b"abcdefgh", units[0].raw_range), b"abcdefgh");
    assert_eq!(units[1].token, TokenView::Eof);
}

#[test]
fn attribute_buffer_freshness() {
    let input = b"<a x=1 y=2><b z=3><input disabled>";
    let units = run(input).unwrap();
    match &units[0].token {
        TokenView::StartTag { attributes, .. } => {
            assert_eq!(attributes.len(), 2);
            assert_eq!(part(input, units[0].raw_range, attributes[0].name), b"x");
            assert_eq!(part(input, units[0].raw_range, attributes[0].value), b"1");
            assert_eq!(part(input, units[0].raw_range, attributes[1].name), b"y");
            assert_eq!(part(input, units[0].raw_range, attributes[1].value), b"2");
        }
        other => panic!("expected start tag, got {:?}", other),
    }
    match &units[1].token {
        TokenView::StartTag { attributes, .. } => {
            assert_eq!(attributes.len(), 1, "stale attributes leaked between tags");
            assert_eq!(part(input, units[1].raw_range, attributes[0].name), b"z");
            assert_eq!(part(input, units[1].raw_range, attributes[0].value), b"3");
        }
        other => panic!("expected start tag, got {:?}", other),
    }
    match &units[2].token {
        TokenView::StartTag { attributes, .. } => {
            assert_eq!(attributes.len(), 1);
            assert_eq!(part(input, units[2].raw_range, attributes[0].name), b"disabled");
            assert_eq!(part(input, units[2].raw_range, attributes[0].value), b"");
        }
        other => panic!("expected start tag, got {:?}", other),
    }
}

#[test]
fn comments_and_bogus_comments() {
    let input = b"a<!--hi-->b<!x>c";
    let units = run(input).unwrap();
    assert_eq!(units.len(), 6);
    assert_eq!(slice(input, units[0].raw_range), b"a");
    match &units[1].token {
        TokenView::Comment { text } => {
            assert_eq!(part(input, units[1].raw_range, *text), b"hi");
            assert_eq!(slice(input, units[1].raw_range), b"<!--hi-->");
        }
        other => panic!("expected comment, got {:?}", other),
    }
    assert_eq!(slice(input, units[2].raw_range), b"b");
    match &units[3].token {
        TokenView::Comment { text } => {
            assert_eq!(part(input, units[3].raw_range, *text), b"x");
        }
        other => panic!("expected bogus comment, got {:?}", other),
    }
    assert_eq!(slice(input, units[4].raw_range), b"c");
    assert_eq!(units[5].token, TokenView::Eof);
}

#[test]
fn plaintext_swallows_everything() {
    let input = b"<plaintext><div>x";
    let units = run(input).unwrap();
    assert_eq!(units.len(), 3);
    assert!(matches!(units[0].token, TokenView::StartTag { .. }));
    assert_eq!(units[1].token, TokenView::Character);
    assert_eq!(slice(input, units[1].raw_range), b"<div>x");
    assert_eq!(units[2].token, TokenView::Eof);
}

#[test]
fn rcdata_title_and_textarea() {
    let input = b"<title>a<b></title>c";
    let units = run(input).unwrap();
    assert_eq!(units.len(), 5);
    assert_eq!(slice(input, units[1].raw_range), b"a<b>");
    assert!(matches!(units[2].token, TokenView::EndTag { .. }));
    assert_eq!(slice(input, units[3].raw_range), b"c");

    let input2 = b"<textarea></textarea>done";
    let units2 = run(input2).unwrap();
    assert_eq!(units2.len(), 4);
    assert!(matches!(units2[0].token, TokenView::StartTag { .. }));
    assert!(matches!(units2[1].token, TokenView::EndTag { .. }));
    assert_eq!(slice(input2, units2[2].raw_range), b"done");
}

#[test]
fn case_insensitive_raw_text_end_tag() {
    let input = b"<SCRIPT>x</ScRiPt>y";
    let units = run(input).unwrap();
    assert_eq!(units.len(), 5);
    assert_eq!(slice(input, units[1].raw_range), b"x");
    assert!(matches!(units[2].token, TokenView::EndTag { .. }));
    assert_eq!(slice(input, units[3].raw_range), b"y");
}

#[test]
fn cdata_only_in_foreign_content() {
    let input = b"<svg><![CDATA[x]]></svg>";
    let units = run(input).unwrap();
    assert_eq!(units.len(), 4);
    assert!(matches!(units[0].token, TokenView::StartTag { .. }));
    assert_eq!(units[1].token, TokenView::Character);
    assert_eq!(slice(input, units[1].raw_range), b"x");
    assert!(matches!(units[2].token, TokenView::EndTag { .. }));

    // Outside foreign content the same bytes are a bogus comment.
    let input2 = b"<![CDATA[x]]>";
    let units2 = run(input2).unwrap();
    assert!(matches!(units2[0].token, TokenView::Comment { .. }));
}

#[test]
fn text_parsing_ambiguity_in_foreign_content() {
    assert_eq!(
        run(b"<svg><title>t</title></svg>"),
        Err(TokenizerBailoutReason::TextParsingAmbiguity)
    );
}

#[test]
fn self_closing_flag() {
    let input = b"<br/>";
    let units = run(input).unwrap();
    match &units[0].token {
        TokenView::StartTag { name, self_closing, .. } => {
            assert_eq!(part(input, units[0].raw_range, *name), b"br");
            assert!(self_closing);
        }
        other => panic!("expected start tag, got {:?}", other),
    }
}

#[test]
fn end_flushes_trailing_characters() {
    let units = run(b"abc").unwrap();
    assert_eq!(units.len(), 2);
    assert_eq!(units[0].token, TokenView::Character);
    assert_eq!(slice(b"abc", units[0].raw_range), b"abc");
    assert_eq!(units[1].token, TokenView::Eof);
}

#[test]
fn pause_resumes_mid_tag() {
    let mut t = Tokenizer::new(4096, Collector::new());
    t.tokenize_chunk(b"<di").unwrap();
    t.tokenize_chunk(b"v>x").unwrap();
    t.end();
    assert_eq!(t.lex_unit_handler().units.clone(), run(b"<div>x").unwrap());
}

#[test]
fn mode_change_handler_observes_transitions() {
    let mut t = Tokenizer::new(4096, Collector::new());
    t.set_text_parsing_mode_change_handler(TextParsingModeChangeHandler {
        snapshots: Vec::new(),
    });
    t.tokenize_chunk(b"<script>x</script>").unwrap();
    t.end();
    let recorder = t.take_text_parsing_mode_change_handler().unwrap();
    assert_eq!(recorder.snapshots.len(), 2);
    assert_eq!(recorder.snapshots[0].mode, TextParsingMode::ScriptData);
    assert_eq!(recorder.snapshots[0].last_start_tag_name_hash, Some(SCRIPT_HASH));
    assert_eq!(recorder.snapshots[1].mode, TextParsingMode::Data);
}

#[test]
fn state_injection() {
    let input = b"x</script>y";
    let mut t = Tokenizer::new(4096, Collector::new());
    t.set_state(TokenizerState::RawText);
    t.set_last_start_tag_name_hash(Some(SCRIPT_HASH));
    t.tokenize_chunk(input).unwrap();
    t.end();
    let units = t.lex_unit_handler().units.clone();
    assert_eq!(units.len(), 4);
    assert_eq!(units[0].token, TokenView::Character);
    assert_eq!(slice(input, units[0].raw_range), b"x");
    assert!(matches!(units[1].token, TokenView::EndTag { .. }));
    assert_eq!(slice(input, units[2].raw_range), b"y");
}

#[test]
fn stray_end_tag_and_lone_lt() {
    let input = b"a</b>c<d>e< f";
    let units = run(input).unwrap();
    // "a", </b>, "c", <d>, then "e" (flushed before the tentative
    // tag open) and the remaining text holding the lone '<'.
    assert_eq!(slice(input, units[0].raw_range), b"a");
    assert!(matches!(units[1].token, TokenView::EndTag { .. }));
    assert_eq!(slice(input, units[2].raw_range), b"c");
    assert!(matches!(units[3].token, TokenView::StartTag { .. }));
    assert_eq!(units[4].token, TokenView::Character);
    assert_eq!(slice(input, units[4].raw_range), b"e");
    assert_eq!(units[5].token, TokenView::Character);
    assert_eq!(slice(input, units[5].raw_range), b"< f");
    assert_eq!(units[6].token, TokenView::Eof);
}
