//! The transform stream: the dispatcher that sits above the
//! tokenizer/parser, the transformation-policy and output-sink
//! contracts it mediates between, and the token capturer.

pub mod dispatcher;
pub mod lexeme;
pub mod token;

use crate::tokenizer::lex_unit::{AttributeView, SliceRange};
use crate::transform_stream::token::{copy_range, Token, TokenCaptureFlags};
use vstd::prelude::*;

verus! {

/// The parser operating mode the dispatcher asks for next: full
/// lexing when some capture is active, cheap tag-boundary scanning
/// otherwise.
#[derive(Debug, Clone, Copy, PartialEq, Eq, Structural)]
pub enum ParserDirective {
    Lex,
    ScanForTags,
}

/// A protocol violation between dispatcher and parser: an integration
/// defect reported as a typed error rather than a crash.
#[derive(Debug, Clone, Copy, PartialEq, Eq, Structural)]
pub enum DispatchError {
    /// Auxiliary element info was requested for a tag hint, but the
    /// next tag lexeme was not a fully-lexed start tag.
    PendingAuxiliaryInfoWithoutStartTag,
}

/// An element name handed to the transformation policy: the name
/// bytes (as they stand in the input) and their packed hash.
#[derive(Debug, Clone, PartialEq, Eq)]
pub struct LocalName {
    pub bytes: Vec<u8>,
    pub name_hash: Option<u64>,
}

impl LocalName {
    /// Copies the name out of `input[range]`.
    pub fn new(input: &[u8], range: SliceRange, name_hash: Option<u64>) -> (r: Self)
        requires
            range.start <= range.end <= input@.len(),
        ensures
            r.bytes@ == input@.subrange(range.start as int, range.end as int),
            r.name_hash == name_hash,
    {
        LocalName { bytes: copy_range(input, range.start, range.end), name_hash }
    }
}

/// The auxiliary element information a policy may request before
/// deciding on capture flags: the attribute ranges and the
/// self-closing flag of the start tag in question.
#[derive(Debug, Clone, PartialEq, Eq)]
pub struct AuxiliaryElementInfo {
    pub attributes: Vec<AttributeView>,
    pub self_closing: bool,
}

/// A policy's answer to an element start: capture flags right away,
/// or a request to see the element's auxiliary info first.  The
/// latter obligates the very next tag lexeme to be a fully-lexed
/// start tag.
pub enum ElementStartResponse {
    CaptureFlags(TokenCaptureFlags),
    RequestAuxiliaryElementInfo,
}

/// The transformation policy consumed by the dispatcher.  It decides,
/// element by element, which lexical-unit kinds must be materialized
/// as tokens, and rewrites captured tokens in place.
pub trait TransformController {
    fn initial_capture_flags(&self) -> TokenCaptureFlags;

    fn handle_element_start(&mut self, name: &LocalName) -> ElementStartResponse;

    fn handle_element_end(&mut self, name: &LocalName) -> TokenCaptureFlags;

    fn handle_auxiliary_element_info(&mut self, info: &AuxiliaryElementInfo) -> TokenCaptureFlags;

    fn handle_token(&mut self, token: &mut Token);
}

/// The output sink: receives the rewritten stream as raw byte
/// slices, in order; an empty slice signals that no more output
/// follows.
pub trait OutputSink {
    fn handle_chunk(&mut self, chunk: &[u8]);
}

} // verus!
