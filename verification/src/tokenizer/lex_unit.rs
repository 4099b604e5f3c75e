//! Lexical units: the shallow, zero-copy tokens the state machine
//! emits.  A unit never owns document bytes; it carries offset ranges
//! into the input buffer.  Tag and attribute name/value ranges are
//! relative to the unit's raw slice, the raw slice itself is a pair of
//! absolute buffer offsets.
//!
//! Character runs have no delimiting lexical symbols, so their raw
//! range is exclusive: it ends strictly before the byte that triggered
//! the emission.  Every other unit kind uses an inclusive raw range
//! that contains its own terminating symbol.

use vstd::prelude::*;

verus! {

/// A half-open `[start, end)` pair of byte offsets.
#[derive(Debug, Clone, Copy, PartialEq, Eq, Structural)]
pub struct SliceRange {
    pub start: usize,
    pub end: usize,
}

/// One attribute of a start tag: name and value ranges, both relative
/// to the tag's raw slice.
#[derive(Debug, Clone, Copy, PartialEq, Eq, Structural)]
pub struct AttributeView {
    pub name: SliceRange,
    pub value: SliceRange,
}

/// The tagged variant part of a lexical unit.
#[derive(Debug, Clone, PartialEq, Eq)]
pub enum TokenView {
    Character,
    Comment { text: SliceRange },
    StartTag { name: SliceRange, attributes: Vec<AttributeView>, self_closing: bool },
    EndTag { name: SliceRange },
    Eof,
}

/// One completed lexical unit, handed to the consumer synchronously.
/// The attribute list attached to a start tag is an owned snapshot of
/// exactly the attributes assembled for that tag.
#[derive(Debug, Clone, PartialEq, Eq)]
pub struct LexUnit {
    pub token: TokenView,
    pub raw_range: SliceRange,
}

/// The mathematical model of a lexical unit, used by the tokenizer's
/// contracts.
pub enum UnitModel {
    Character { raw: SliceRange },
    Comment { text: SliceRange, raw: SliceRange },
    StartTag { name: SliceRange, attributes: Seq<AttributeView>, self_closing: bool, raw: SliceRange },
    EndTag { name: SliceRange, raw: SliceRange },
    Eof,
}

impl View for LexUnit {
    type V = UnitModel;

    open spec fn view(&self) -> UnitModel {
        match self.token {
            TokenView::Character => UnitModel::Character { raw: self.raw_range },
            TokenView::Comment { text } => UnitModel::Comment { text, raw: self.raw_range },
            TokenView::StartTag { name, ref attributes, self_closing } => UnitModel::StartTag {
                name,
                attributes: attributes@,
                self_closing,
                raw: self.raw_range,
            },
            TokenView::EndTag { name } => UnitModel::EndTag { name, raw: self.raw_range },
            TokenView::Eof => UnitModel::Eof,
        }
    }
}

/// Copies an attribute list; the snapshot a start-tag unit carries.
pub fn clone_attributes(src: &Vec<AttributeView>) -> (r: Vec<AttributeView>)
    ensures
        r@ == src@,
{
    let mut r: Vec<AttributeView> = Vec::new();
    let mut i: usize = 0;
    while i < src.len()
        invariant
            i <= src@.len(),
            r@ == src@.subrange(0, i as int),
        decreases src@.len() - i,
    {
        r.push(src[i]);
        i = i + 1;
        proof {
            assert(src@.subrange(0, i as int) == src@.subrange(0, i - 1).push(src@[i - 1]));
        }
    }
    proof {
        assert(src@.subrange(0, src@.len() as int) == src@);
    }
    r
}

} // verus!
