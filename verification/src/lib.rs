//! Streaming, zero-copy markup tokenizer and rewriter core.
//!
//! Byte chunks are accumulated in a fixed-capacity input buffer; a
//! byte-driven state machine emits lexical units (tags, comments, text
//! runs) as offset ranges into that buffer, guided by a lightweight
//! tree-construction simulator that picks the text-parsing mode for the
//! content that follows each tag.  A dispatcher above the tokenizer
//! consults a transformation policy per element and forwards every input
//! byte to an output sink exactly once, either verbatim or as the
//! serialized form of a rewritten token.

pub mod tokenizer;
pub mod transform_stream;
