use html_rewriter_core::tokenizer::lex_unit::AttributeView;
use html_rewriter_core::tokenizer::lex_unit::SliceRange;
use html_rewriter_core::transform_stream::dispatcher::Dispatcher;
use html_rewriter_core::transform_stream::lexeme::NonTagContentLexeme;
use html_rewriter_core::transform_stream::lexeme::NonTagContentTokenOutline;
use html_rewriter_core::transform_stream::lexeme::TagLexeme;
use html_rewriter_core::transform_stream::lexeme::TagTokenOutline;
use html_rewriter_core::transform_stream::token::Token;
use html_rewriter_core::transform_stream::token::TokenCaptureFlags;
use html_rewriter_core::transform_stream::AuxiliaryElementInfo;
use html_rewriter_core::transform_stream::DispatchError;
use html_rewriter_core::transform_stream::ElementStartResponse;
use html_rewriter_core::transform_stream::LocalName;
use html_rewriter_core::transform_stream::OutputSink;
use html_rewriter_core::transform_stream::ParserDirective;
use html_rewriter_core::transform_stream::TransformController;
use std::cell::RefCell;
use std::rc::Rc;

#[derive(Default)]
struct SinkState {
    out: Vec<u8>,
    saw_terminator: bool,
    empty_chunks: usize,
}

#[derive(Clone)]
struct SharedSink(Rc<RefCell<SinkState>>);

impl SharedSink {
    fn new() -> Self {
        SharedSink(Rc::new(RefCell::new(SinkState::default())))
    }
}

impl OutputSink for SharedSink {
    fn handle_chunk(&mut self, chunk: &[u8]) {
        let mut st = self.0.borrow_mut();
        if chunk.is_empty() {
            st.saw_terminator = true;
            st.empty_chunks += 1;
        } else {
            st.out.extend_from_slice(chunk);
        }
    }
}

#[derive(Default)]
struct ControllerLog {
    starts: Vec<Vec<u8>>,
    ends: Vec<Vec<u8>>,
    aux: Vec<(usize, bool)>,
    tokens: usize,
}

struct Controller {
    log: Rc<RefCell<ControllerLog>>,
    start_response: fn() -> ElementStartResponse,
    aux_flags: TokenCaptureFlags,
    rewrite: fn(&mut Token),
}

fn no_flags() -> ElementStartResponse {
    ElementStartResponse::CaptureFlags(TokenCaptureFlags::none())
}

fn keep(_t: &mut Token) {}

impl Controller {
    fn new(log: Rc<RefCell<ControllerLog>>) -> Self {
        Controller {
            log,
            start_response: no_flags,
            aux_flags: TokenCaptureFlags::none(),
            rewrite: keep,
        }
    }
}

impl TransformController for Controller {
    fn initial_capture_flags(&self) -> TokenCaptureFlags {
        TokenCaptureFlags::none()
    }

    fn handle_element_start(&mut self, name: &LocalName) -> ElementStartResponse {
        self.log.borrow_mut().starts.push(name.bytes.clone());
        (self.start_response)()
    }

    fn handle_element_end(&mut self, name: &LocalName) -> TokenCaptureFlags {
        self.log.borrow_mut().ends.push(name.bytes.clone());
        TokenCaptureFlags::none()
    }

    fn handle_auxiliary_element_info(&mut self, info: &AuxiliaryElementInfo) -> TokenCaptureFlags {
        self.log.borrow_mut().aux.push((info.attributes.len(), info.self_closing));
        self.aux_flags
    }

    fn handle_token(&mut self, token: &mut Token) {
        self.log.borrow_mut().tokens += 1;
        (self.rewrite)(token);
    }
}

fn div_lexeme() -> TagLexeme {
    // `<div id="a">` standing at offset 1 of `x<div id="a">y`.
    TagLexeme {
        raw_range: SliceRange { start: 1, end: 13 },
        outline: TagTokenOutline::StartTag {
            name: SliceRange { start: 1, end: 4 },
            name_hash: None,
            attributes: vec![AttributeView {
                name: SliceRange { start: 5, end: 7 },
                value: SliceRange { start: 9, end: 10 },
            }],
            self_closing: false,
        },
    }
}

#[test]
fn passthrough_fidelity() {
    // A policy that requests no captures: the output equals the input
    // byte for byte.
    let input: &[u8] = b"<div>Hello</div>";
    let log = Rc::new(RefCell::new(ControllerLog::default()));
    let sink = SharedSink::new();
    let mut d = Dispatcher::new(Controller::new(log.clone()), sink.clone(), encoding_rs::UTF_8);

    let start = TagLexeme {
        raw_range: SliceRange { start: 0, end: 5 },
        outline: TagTokenOutline::StartTag {
            name: SliceRange { start: 1, end: 4 },
            name_hash: None,
            attributes: vec![],
            self_closing: false,
        },
    };
    let text = NonTagContentLexeme {
        raw_range: SliceRange { start: 5, end: 10 },
        outline: NonTagContentTokenOutline::Character,
    };
    let end = TagLexeme {
        raw_range: SliceRange { start: 10, end: 16 },
        outline: TagTokenOutline::EndTag {
            name: SliceRange { start: 2, end: 5 },
            name_hash: None,
        },
    };
    assert_eq!(d.handle_tag(input, &start), Ok(ParserDirective::ScanForTags));
    d.handle_non_tag_content(input, &text);
    assert_eq!(d.handle_tag(input, &end), Ok(ParserDirective::ScanForTags));
    d.finish(input);

    let st = sink.0.borrow();
    assert_eq!(st.out, input);
    assert!(st.saw_terminator);
    assert_eq!(log.borrow().starts, vec![b"div".to_vec()]);
    assert_eq!(log.borrow().ends, vec![b"div".to_vec()]);
    assert_eq!(log.borrow().tokens, 0);
}

#[test]
fn rewritten_token_replaces_raw_bytes() {
    // Exactly-once emission with a replacement: the captured tag's raw
    // bytes are not echoed; its serialized, rewritten form takes their
    // place, and every other byte appears once, in order.
    let input: &[u8] = b"x<div id=\"a\">y";
    let log = Rc::new(RefCell::new(ControllerLog::default()));
    let sink = SharedSink::new();
    let mut controller = Controller::new(log.clone());
    controller.start_response = || {
        ElementStartResponse::CaptureFlags(TokenCaptureFlags {
            text: false,
            comments: false,
            start_tags: true,
            end_tags: false,
        })
    };
    controller.rewrite = |t: &mut Token| {
        if let Token::StartTag { name, .. } = t {
            *name = b"span".to_vec();
        }
    };
    let mut d = Dispatcher::new(controller, sink.clone(), encoding_rs::UTF_8);

    let r = d.handle_tag(input, &div_lexeme());
    assert_eq!(r, Ok(ParserDirective::Lex));
    d.finish(input);

    let st = sink.0.borrow();
    assert_eq!(st.out, b"x<span id=\"a\">y");
    assert!(st.saw_terminator);
    assert_eq!(log.borrow().tokens, 1);
}

#[test]
fn deleting_rewrite_sends_no_empty_chunk() {
    // Emptying a captured text token is ordinary deletion: its bytes
    // simply disappear from the output.  The empty slice is the
    // end-of-output signal, so it must not be sent for the deleted
    // token; it arrives exactly once, from finish.
    let input: &[u8] = b"<b>secret</b>";
    let log = Rc::new(RefCell::new(ControllerLog::default()));
    let sink = SharedSink::new();
    let mut controller = Controller::new(log.clone());
    controller.start_response = || {
        ElementStartResponse::CaptureFlags(TokenCaptureFlags {
            text: true,
            comments: false,
            start_tags: false,
            end_tags: false,
        })
    };
    controller.rewrite = |t: &mut Token| {
        if let Token::Character { text } = t {
            *text = Vec::new();
        }
    };
    let mut d = Dispatcher::new(controller, sink.clone(), encoding_rs::UTF_8);

    let start = TagLexeme {
        raw_range: SliceRange { start: 0, end: 3 },
        outline: TagTokenOutline::StartTag {
            name: SliceRange { start: 1, end: 2 },
            name_hash: None,
            attributes: vec![],
            self_closing: false,
        },
    };
    assert_eq!(d.handle_tag(input, &start), Ok(ParserDirective::Lex));
    let text = NonTagContentLexeme {
        raw_range: SliceRange { start: 3, end: 9 },
        outline: NonTagContentTokenOutline::Character,
    };
    d.handle_non_tag_content(input, &text);
    assert_eq!(sink.0.borrow().empty_chunks, 0);
    assert!(!sink.0.borrow().saw_terminator);
    let end = TagLexeme {
        raw_range: SliceRange { start: 9, end: 13 },
        outline: TagTokenOutline::EndTag {
            name: SliceRange { start: 2, end: 3 },
            name_hash: None,
        },
    };
    assert_eq!(d.handle_tag(input, &end), Ok(ParserDirective::ScanForTags));
    d.finish(input);

    let st = sink.0.borrow();
    assert_eq!(st.out, b"<b></b>");
    assert!(st.saw_terminator);
    assert_eq!(st.empty_chunks, 1);
    assert_eq!(log.borrow().tokens, 1);
}

#[test]
fn comment_capture_and_rewrite() {
    // Comments are captured once a consulted element switched the
    // comment flag on; the rewritten text replaces the original.
    let input: &[u8] = b"<i>a<!--old-->b";
    let log = Rc::new(RefCell::new(ControllerLog::default()));
    let sink = SharedSink::new();
    let mut controller = Controller::new(log.clone());
    controller.start_response = || {
        ElementStartResponse::CaptureFlags(TokenCaptureFlags {
            text: false,
            comments: true,
            start_tags: false,
            end_tags: false,
        })
    };
    controller.rewrite = |t: &mut Token| {
        if let Token::Comment { text } = t {
            *text = b"new".to_vec();
        }
    };
    let mut d = Dispatcher::new(controller, sink.clone(), encoding_rs::UTF_8);
    let start = TagLexeme {
        raw_range: SliceRange { start: 0, end: 3 },
        outline: TagTokenOutline::StartTag {
            name: SliceRange { start: 1, end: 2 },
            name_hash: None,
            attributes: vec![],
            self_closing: false,
        },
    };
    assert_eq!(d.handle_tag(input, &start), Ok(ParserDirective::Lex));
    let comment = NonTagContentLexeme {
        raw_range: SliceRange { start: 4, end: 14 },
        outline: NonTagContentTokenOutline::Comment {
            text: SliceRange { start: 4, end: 7 },
        },
    };
    d.handle_non_tag_content(input, &comment);
    d.finish(input);
    let st = sink.0.borrow();
    assert_eq!(st.out, b"<i>a<!--new-->b");
    assert_eq!(log.borrow().tokens, 1);
}

#[test]
fn auxiliary_info_two_step() {
    let input: &[u8] = b"x<div id=\"a\">y";
    let log = Rc::new(RefCell::new(ControllerLog::default()));
    let sink = SharedSink::new();
    let mut controller = Controller::new(log.clone());
    controller.start_response = || ElementStartResponse::RequestAuxiliaryElementInfo;
    let mut d = Dispatcher::new(controller, sink.clone(), encoding_rs::UTF_8);

    // The hint only carries the name; the policy asks for more and the
    // dispatcher must get a fully-lexed start tag next.
    let name = LocalName { bytes: b"div".to_vec(), name_hash: None };
    assert_eq!(d.handle_start_tag_hint(&name), ParserDirective::Lex);
    assert_eq!(d.handle_tag(input, &div_lexeme()), Ok(ParserDirective::ScanForTags));
    assert_eq!(log.borrow().aux, vec![(1, false)]);
    d.finish(input);
    assert_eq!(sink.0.borrow().out, input);
}

#[test]
fn auxiliary_info_protocol_violation() {
    let input: &[u8] = b"x</div>y";
    let log = Rc::new(RefCell::new(ControllerLog::default()));
    let sink = SharedSink::new();
    let mut controller = Controller::new(log.clone());
    controller.start_response = || ElementStartResponse::RequestAuxiliaryElementInfo;
    let mut d = Dispatcher::new(controller, sink.clone(), encoding_rs::UTF_8);

    let name = LocalName { bytes: b"div".to_vec(), name_hash: None };
    assert_eq!(d.handle_start_tag_hint(&name), ParserDirective::Lex);
    let end = TagLexeme {
        raw_range: SliceRange { start: 1, end: 7 },
        outline: TagTokenOutline::EndTag {
            name: SliceRange { start: 2, end: 5 },
            name_hash: None,
        },
    };
    assert_eq!(
        d.handle_tag(input, &end),
        Err(DispatchError::PendingAuxiliaryInfoWithoutStartTag)
    );
}

#[test]
fn hint_flags_are_reused_without_requery() {
    let input: &[u8] = b"<div>";
    let log = Rc::new(RefCell::new(ControllerLog::default()));
    let sink = SharedSink::new();
    let controller = Controller::new(log.clone());
    let mut d = Dispatcher::new(controller, sink.clone(), encoding_rs::UTF_8);

    let name = LocalName { bytes: b"div".to_vec(), name_hash: None };
    assert_eq!(d.handle_start_tag_hint(&name), ParserDirective::ScanForTags);
    assert_eq!(log.borrow().starts.len(), 1);

    let start = TagLexeme {
        raw_range: SliceRange { start: 0, end: 5 },
        outline: TagTokenOutline::StartTag {
            name: SliceRange { start: 1, end: 4 },
            name_hash: None,
            attributes: vec![],
            self_closing: false,
        },
    };
    assert_eq!(d.handle_tag(input, &start), Ok(ParserDirective::ScanForTags));
    // The policy was not consulted a second time for the same tag.
    assert_eq!(log.borrow().starts.len(), 1);
}

#[test]
fn end_tag_hint_applies_flags() {
    let log = Rc::new(RefCell::new(ControllerLog::default()));
    let sink = SharedSink::new();
    let controller = Controller::new(log.clone());
    let mut d = Dispatcher::new(controller, sink.clone(), encoding_rs::UTF_8);
    let name = LocalName { bytes: b"div".to_vec(), name_hash: None };
    assert_eq!(d.handle_end_tag_hint(&name), ParserDirective::ScanForTags);
    assert_eq!(log.borrow().ends, vec![b"div".to_vec()]);
}

#[test]
fn flush_withholds_blocked_bytes() {
    let input: &[u8] = b"abcdef";
    let log = Rc::new(RefCell::new(ControllerLog::default()));
    let sink = SharedSink::new();
    let mut d = Dispatcher::new(Controller::new(log), sink.clone(), encoding_rs::UTF_8);
    d.flush_remaining_input(input, 2);
    assert_eq!(sink.0.borrow().out, b"abcd");
    assert!(!sink.0.borrow().saw_terminator);
}

#[test]
fn eof_lexeme_is_passthrough() {
    let input: &[u8] = b"tail";
    let log = Rc::new(RefCell::new(ControllerLog::default()));
    let sink = SharedSink::new();
    let mut d = Dispatcher::new(Controller::new(log), sink.clone(), encoding_rs::UTF_8);
    let eof = NonTagContentLexeme {
        raw_range: SliceRange { start: 4, end: 4 },
        outline: NonTagContentTokenOutline::Eof,
    };
    d.handle_non_tag_content(input, &eof);
    d.finish(input);
    let st = sink.0.borrow();
    assert_eq!(st.out, b"tail");
    assert!(st.saw_terminator);
}

#[test]
fn serialized_start_tag_shape() {
    let tok = Token::StartTag {
        name: b"a".to_vec(),
        attributes: vec![
            html_rewriter_core::transform_stream::token::TokenAttribute {
                name: b"href".to_vec(),
                value: b"u".to_vec(),
            },
        ],
        self_closing: true,
    };
    assert_eq!(tok.to_bytes(), b"<a href=\"u\"/>");
    let end = Token::EndTag { name: b"a".to_vec() };
    assert_eq!(end.to_bytes(), b"</a>");
    let comment = Token::Comment { text: b"c".to_vec() };
    assert_eq!(comment.to_bytes(), b"<!--c-->");
}
