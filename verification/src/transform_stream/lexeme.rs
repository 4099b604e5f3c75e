//! Lexemes: what the parsing layer above the tokenizer hands to the
//! dispatcher.  A lexeme pairs a raw `[start, end)` range of the
//! current input chunk with an outline of the token found there; the
//! outline's own ranges (names, attribute names and values) are
//! relative to the raw range's start.

use crate::tokenizer::lex_unit::{AttributeView, SliceRange};
use vstd::prelude::*;

verus! {

/// The shape of a tag lexeme.
#[derive(Debug, Clone, PartialEq, Eq)]
pub enum TagTokenOutline {
    StartTag {
        name: SliceRange,
        name_hash: Option<u64>,
        attributes: Vec<AttributeView>,
        self_closing: bool,
    },
    EndTag { name: SliceRange, name_hash: Option<u64> },
}

/// The shape of a non-tag lexeme.
#[derive(Debug, Clone, Copy, PartialEq, Eq, Structural)]
pub enum NonTagContentTokenOutline {
    Character,
    Comment { text: SliceRange },
    Eof,
}

#[derive(Debug, Clone, PartialEq, Eq)]
pub struct TagLexeme {
    pub raw_range: SliceRange,
    pub outline: TagTokenOutline,
}

#[derive(Debug, Clone, Copy, PartialEq, Eq, Structural)]
pub struct NonTagContentLexeme {
    pub raw_range: SliceRange,
    pub outline: NonTagContentTokenOutline,
}

/// A sub-range lies within a raw slice of length `raw_len`.
pub open spec fn part_wf(part: SliceRange, raw_len: int) -> bool {
    part.start <= part.end && part.end <= raw_len
}

pub open spec fn tag_lexeme_wf(input: Seq<u8>, lex: TagLexeme) -> bool {
    &&& lex.raw_range.start <= lex.raw_range.end
    &&& lex.raw_range.end <= input.len()
    &&& match lex.outline {
        TagTokenOutline::StartTag { name, attributes, .. } => {
            &&& part_wf(name, lex.raw_range.end - lex.raw_range.start)
            &&& forall|i: int|
                0 <= i < attributes@.len() ==> {
                    &&& part_wf(
                        #[trigger] attributes@[i].name,
                        lex.raw_range.end - lex.raw_range.start,
                    )
                    &&& part_wf(attributes@[i].value, lex.raw_range.end - lex.raw_range.start)
                }
        },
        TagTokenOutline::EndTag { name, .. } => part_wf(
            name,
            lex.raw_range.end - lex.raw_range.start,
        ),
    }
}

pub open spec fn non_tag_lexeme_wf(input: Seq<u8>, lex: NonTagContentLexeme) -> bool {
    &&& lex.raw_range.start <= lex.raw_range.end
    &&& lex.raw_range.end <= input.len()
    &&& match lex.outline {
        NonTagContentTokenOutline::Comment { text } => part_wf(
            text,
            lex.raw_range.end - lex.raw_range.start,
        ),
        _ => true,
    }
}

} // verus!
