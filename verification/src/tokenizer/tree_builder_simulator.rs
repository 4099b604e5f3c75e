//! The tree-construction simulator.
//!
//! It approximates the minimal subset of tree construction needed to
//! answer: what text-parsing mode governs the content after this tag?
//! It tracks a per-name nesting counter for the element that governs a
//! raw-text mode (to refuse runaway depth from repeated identical
//! start tags) and a depth counter for foreign-content roots (`svg`,
//! `math`), which toggle whether CDATA sections are recognized.  When
//! its simplified model cannot determine the correct mode with
//! confidence — a text-mode element opened inside foreign content —
//! it refuses to proceed with `TextParsingAmbiguity` rather than
//! guessing.

use crate::tokenizer::tag_name::name_hash;
use crate::tokenizer::TokenizerBailoutReason;
use vstd::prelude::*;

verus! {

/// Configured bound on the nesting counters; exceeding it is refused
/// with `MaxTagNestingReached`.
pub const MAX_TAG_NESTING: usize = 64;

/// Packed hashes of the element names the simulator reacts to.
pub const TEXTAREA_HASH: u64 = 133009201021899;

pub const TITLE_HASH: u64 = 508421519;

pub const STYLE_HASH: u64 = 494548367;

pub const XMP_HASH: u64 = 140762;

pub const IFRAME_HASH: u64 = 20676916687;

pub const NOEMBED_HASH: u64 = 1676368724942;

pub const NOFRAMES_HASH: u64 = 107288755794909;

pub const NOSCRIPT_HASH: u64 = 107302467221150;

pub const SCRIPT_HASH: u64 = 31364036254;

pub const PLAINTEXT_HASH: u64 = 7415883143641246;

pub const SVG_HASH: u64 = 120849;

pub const MATH_HASH: u64 = 6076306;

/// Text-parsing modes: how the bytes following a tag are tokenized.
#[derive(Debug, Clone, Copy, PartialEq, Eq, Structural)]
pub enum TextParsingMode {
    Data,
    PlainText,
    RCData,
    RawText,
    ScriptData,
    CDataSection,
}

/// A snapshot taken whenever the text-parsing mode changes; a
/// testing-only observation surface.
#[derive(Debug, Clone, Copy, PartialEq, Eq, Structural)]
pub struct TextParsingModeSnapshot {
    pub mode: TextParsingMode,
    pub last_start_tag_name_hash: Option<u64>,
}

/// Recorder for text-parsing-mode changes, installed on the tokenizer
/// for observation in tests.
#[derive(Debug, Clone, PartialEq, Eq)]
pub struct TextParsingModeChangeHandler {
    pub snapshots: Vec<TextParsingModeSnapshot>,
}

pub open spec fn is_rcdata_hash(h: u64) -> bool {
    h == TEXTAREA_HASH || h == TITLE_HASH
}

pub open spec fn is_rawtext_hash(h: u64) -> bool {
    ||| h == STYLE_HASH
    ||| h == XMP_HASH
    ||| h == IFRAME_HASH
    ||| h == NOEMBED_HASH
    ||| h == NOFRAMES_HASH
    ||| h == NOSCRIPT_HASH
}

pub open spec fn is_foreign_root_hash(h: u64) -> bool {
    h == SVG_HASH || h == MATH_HASH
}

/// The names whose start tag switches the text-parsing mode.
pub open spec fn is_mode_affecting_hash(h: u64) -> bool {
    is_rcdata_hash(h) || is_rawtext_hash(h) || h == SCRIPT_HASH || h == PLAINTEXT_HASH
}

pub open spec fn mode_for_start_hash(h: u64) -> TextParsingMode {
    if is_rcdata_hash(h) {
        TextParsingMode::RCData
    } else if is_rawtext_hash(h) {
        TextParsingMode::RawText
    } else if h == SCRIPT_HASH {
        TextParsingMode::ScriptData
    } else if h == PLAINTEXT_HASH {
        TextParsingMode::PlainText
    } else {
        TextParsingMode::Data
    }
}

/// `SCRIPT_HASH` really is the hash of the name `script`; together
/// with hash injectivity, a cached-hash match against it can only be
/// produced by that very name.
pub proof fn lemma_script_hash()
    ensures
        name_hash(seq![115u8, 99u8, 114u8, 105u8, 112u8, 116u8]) == Some(SCRIPT_HASH),
{
    let s = seq![115u8, 99u8, 114u8, 105u8, 112u8, 116u8];
    reveal_with_fuel(crate::tokenizer::tag_name::hash_prefix, 8);
    assert(crate::tokenizer::tag_name::hash_prefix(s, 6) == Some(SCRIPT_HASH as int));
}

/// Each remaining hash constant is the hash of its element's name, so
/// — by hash injectivity — no other hashable name can trigger its
/// rule in the simulator.
#[verifier::rlimit(100)]
pub proof fn lemma_element_name_hashes()
    ensures
        name_hash(seq![116u8, 101u8, 120u8, 116u8, 97u8, 114u8, 101u8, 97u8]) == Some(
            TEXTAREA_HASH,
        ),
        name_hash(seq![116u8, 105u8, 116u8, 108u8, 101u8]) == Some(TITLE_HASH),
        name_hash(seq![115u8, 116u8, 121u8, 108u8, 101u8]) == Some(STYLE_HASH),
        name_hash(seq![120u8, 109u8, 112u8]) == Some(XMP_HASH),
        name_hash(seq![105u8, 102u8, 114u8, 97u8, 109u8, 101u8]) == Some(IFRAME_HASH),
        name_hash(seq![110u8, 111u8, 101u8, 109u8, 98u8, 101u8, 100u8]) == Some(NOEMBED_HASH),
        name_hash(seq![110u8, 111u8, 102u8, 114u8, 97u8, 109u8, 101u8, 115u8]) == Some(
            NOFRAMES_HASH,
        ),
        name_hash(seq![110u8, 111u8, 115u8, 99u8, 114u8, 105u8, 112u8, 116u8]) == Some(
            NOSCRIPT_HASH,
        ),
        name_hash(seq![112u8, 108u8, 97u8, 105u8, 110u8, 116u8, 101u8, 120u8, 116u8]) == Some(
            PLAINTEXT_HASH,
        ),
        name_hash(seq![115u8, 118u8, 103u8]) == Some(SVG_HASH),
        name_hash(seq![109u8, 97u8, 116u8, 104u8]) == Some(MATH_HASH),
{
    reveal_with_fuel(crate::tokenizer::tag_name::hash_prefix, 11);
    assert(crate::tokenizer::tag_name::hash_prefix(
        seq![116u8, 101u8, 120u8, 116u8, 97u8, 114u8, 101u8, 97u8],
        8,
    ) == Some(TEXTAREA_HASH as int));
    assert(crate::tokenizer::tag_name::hash_prefix(seq![116u8, 105u8, 116u8, 108u8, 101u8], 5)
        == Some(TITLE_HASH as int));
    assert(crate::tokenizer::tag_name::hash_prefix(seq![115u8, 116u8, 121u8, 108u8, 101u8], 5)
        == Some(STYLE_HASH as int));
    assert(crate::tokenizer::tag_name::hash_prefix(seq![120u8, 109u8, 112u8], 3) == Some(
        XMP_HASH as int,
    ));
    assert(crate::tokenizer::tag_name::hash_prefix(
        seq![105u8, 102u8, 114u8, 97u8, 109u8, 101u8],
        6,
    ) == Some(IFRAME_HASH as int));
    assert(crate::tokenizer::tag_name::hash_prefix(
        seq![110u8, 111u8, 101u8, 109u8, 98u8, 101u8, 100u8],
        7,
    ) == Some(NOEMBED_HASH as int));
    assert(crate::tokenizer::tag_name::hash_prefix(
        seq![110u8, 111u8, 102u8, 114u8, 97u8, 109u8, 101u8, 115u8],
        8,
    ) == Some(NOFRAMES_HASH as int));
    assert(crate::tokenizer::tag_name::hash_prefix(
        seq![110u8, 111u8, 115u8, 99u8, 114u8, 105u8, 112u8, 116u8],
        8,
    ) == Some(NOSCRIPT_HASH as int));
    assert(crate::tokenizer::tag_name::hash_prefix(
        seq![112u8, 108u8, 97u8, 105u8, 110u8, 116u8, 101u8, 120u8, 116u8],
        9,
    ) == Some(PLAINTEXT_HASH as int));
    assert(crate::tokenizer::tag_name::hash_prefix(seq![115u8, 118u8, 103u8], 3) == Some(
        SVG_HASH as int,
    ));
    assert(crate::tokenizer::tag_name::hash_prefix(seq![109u8, 97u8, 116u8, 104u8], 4) == Some(
        MATH_HASH as int,
    ));
}

/// The simulator's mathematical model.
pub struct SimModel {
    /// Repetitions of the governing raw-text element's start tag seen
    /// before its matching end tag.
    pub nesting: int,
    /// Depth of currently open foreign-content roots.
    pub foreign_depth: int,
}

pub open spec fn sim_wf(s: SimModel) -> bool {
    &&& 0 <= s.nesting <= MAX_TAG_NESTING
    &&& 0 <= s.foreign_depth <= MAX_TAG_NESTING
}

/// What a completed start tag does to the simulator, and the mode it
/// selects for the content that follows.
pub open spec fn start_tag_transition(s: SimModel, h: Option<u64>, self_closing: bool) -> (
    SimModel,
    Result<TextParsingMode, TokenizerBailoutReason>,
) {
    match h {
        Some(hv) => {
            if is_foreign_root_hash(hv) {
                if self_closing {
                    (s, Ok(TextParsingMode::Data))
                } else if s.foreign_depth >= MAX_TAG_NESTING {
                    (s, Err(TokenizerBailoutReason::MaxTagNestingReached))
                } else {
                    (
                        SimModel { foreign_depth: s.foreign_depth + 1, ..s },
                        Ok(TextParsingMode::Data),
                    )
                }
            } else if is_mode_affecting_hash(hv) {
                if s.foreign_depth > 0 {
                    (s, Err(TokenizerBailoutReason::TextParsingAmbiguity))
                } else {
                    (SimModel { nesting: 1, ..s }, Ok(mode_for_start_hash(hv)))
                }
            } else {
                (s, Ok(TextParsingMode::Data))
            }
        },
        None => (s, Ok(TextParsingMode::Data)),
    }
}

/// What a completed end tag does: a matching end tag returns the mode
/// to `Data` and clears the counters; anything else defaults safely.
pub open spec fn end_tag_transition(s: SimModel, h: Option<u64>) -> SimModel {
    match h {
        Some(hv) => {
            if is_foreign_root_hash(hv) {
                SimModel {
                    foreign_depth: if s.foreign_depth > 0 {
                        s.foreign_depth - 1
                    } else {
                        0
                    },
                    ..s
                }
            } else if is_mode_affecting_hash(hv) {
                SimModel { nesting: 0, ..s }
            } else {
                s
            }
        },
        None => s,
    }
}

/// One more start tag of the governing name seen inside raw text:
/// bumps the nesting counter, refusing growth past the bound.
pub open spec fn nested_start_transition(s: SimModel) -> (SimModel, Result<
    (),
    TokenizerBailoutReason,
>) {
    if s.nesting >= MAX_TAG_NESTING {
        (s, Err(TokenizerBailoutReason::MaxTagNestingReached))
    } else {
        (SimModel { nesting: s.nesting + 1, ..s }, Ok(()))
    }
}

/// `n` successive repetitions of the governing element's start tag,
/// as the raw-text scanner reports them.
pub open spec fn nested_start_n(s: SimModel, n: nat) -> Result<SimModel, TokenizerBailoutReason>
    decreases n,
{
    if n == 0 {
        Ok(s)
    } else {
        match nested_start_n(s, (n - 1) as nat) {
            Err(e) => Err(e),
            Ok(s1) => match nested_start_transition(s1).1 {
                Err(e) => Err(e),
                Ok(_) => Ok(nested_start_transition(s1).0),
            },
        }
    }
}

/// Nesting bound enforcement is deterministic: from a given counter,
/// repeating the governing start tag fails — with
/// `MaxTagNestingReached` — exactly when the repetitions push the
/// counter past the configured bound, so a fixed configuration fails
/// at the same repetition count every time.
pub proof fn lemma_nesting_bound_deterministic(s: SimModel, n: nat)
    requires
        0 <= s.nesting <= MAX_TAG_NESTING,
    ensures
        nested_start_n(s, n) is Err <==> s.nesting + n > MAX_TAG_NESTING,
        nested_start_n(s, n) is Err ==> nested_start_n(s, n)
            == Err::<SimModel, TokenizerBailoutReason>(TokenizerBailoutReason::MaxTagNestingReached),
    decreases n,
{
    if n > 0 {
        lemma_nesting_bound_deterministic(s, (n - 1) as nat);
        match nested_start_n(s, (n - 1) as nat) {
            Err(e) => {},
            Ok(s1) => {
                lemma_nested_start_n_counter(s, (n - 1) as nat);
            },
        }
    }
}

proof fn lemma_nested_start_n_counter(s: SimModel, n: nat)
    requires
        0 <= s.nesting <= MAX_TAG_NESTING,
        nested_start_n(s, n) is Ok,
    ensures
        nested_start_n(s, n)->Ok_0.nesting == s.nesting + n,
        nested_start_n(s, n)->Ok_0.foreign_depth == s.foreign_depth,
        s.nesting + n <= MAX_TAG_NESTING,
    decreases n,
{
    if n > 0 {
        lemma_nested_start_n_counter(s, (n - 1) as nat);
    }
}

pub struct TreeBuilderSimulator {
    nesting: usize,
    foreign_depth: usize,
}

impl View for TreeBuilderSimulator {
    type V = SimModel;

    closed spec fn view(&self) -> SimModel {
        SimModel { nesting: self.nesting as int, foreign_depth: self.foreign_depth as int }
    }
}

pub fn is_foreign_root(h: u64) -> (r: bool)
    ensures
        r == is_foreign_root_hash(h),
{
    h == SVG_HASH || h == MATH_HASH
}

pub fn is_mode_affecting(h: u64) -> (r: bool)
    ensures
        r == is_mode_affecting_hash(h),
{
    h == TEXTAREA_HASH || h == TITLE_HASH || h == STYLE_HASH || h == XMP_HASH || h == IFRAME_HASH
        || h == NOEMBED_HASH || h == NOFRAMES_HASH || h == NOSCRIPT_HASH || h == SCRIPT_HASH
        || h == PLAINTEXT_HASH
}

pub fn mode_for_start(h: u64) -> (r: TextParsingMode)
    ensures
        r == mode_for_start_hash(h),
{
    if h == TEXTAREA_HASH || h == TITLE_HASH {
        TextParsingMode::RCData
    } else if h == STYLE_HASH || h == XMP_HASH || h == IFRAME_HASH || h == NOEMBED_HASH || h
        == NOFRAMES_HASH || h == NOSCRIPT_HASH {
        TextParsingMode::RawText
    } else if h == SCRIPT_HASH {
        TextParsingMode::ScriptData
    } else if h == PLAINTEXT_HASH {
        TextParsingMode::PlainText
    } else {
        TextParsingMode::Data
    }
}

impl TreeBuilderSimulator {
    pub fn new() -> (r: Self)
        ensures
            r@ == (SimModel { nesting: 0, foreign_depth: 0 }),
            sim_wf(r@),
    {
        TreeBuilderSimulator { nesting: 0, foreign_depth: 0 }
    }

    /// Whether CDATA sections are currently recognized: only inside
    /// foreign content.
    pub fn allow_cdata(&self) -> (r: bool)
        ensures
            r == (self@.foreign_depth > 0),
    {
        self.foreign_depth > 0
    }

    pub fn get_feedback_for_start_tag_name(
        &mut self,
        name_hash: Option<u64>,
        self_closing: bool,
    ) -> (r: Result<TextParsingMode, TokenizerBailoutReason>)
        requires
            sim_wf(old(self)@),
        ensures
            sim_wf(final(self)@),
            (final(self)@, r) == start_tag_transition(old(self)@, name_hash, self_closing),
    {
        match name_hash {
            Some(hv) => {
                if is_foreign_root(hv) {
                    if self_closing {
                        Ok(TextParsingMode::Data)
                    } else if self.foreign_depth >= MAX_TAG_NESTING {
                        Err(TokenizerBailoutReason::MaxTagNestingReached)
                    } else {
                        self.foreign_depth = self.foreign_depth + 1;
                        Ok(TextParsingMode::Data)
                    }
                } else if is_mode_affecting(hv) {
                    if self.foreign_depth > 0 {
                        Err(TokenizerBailoutReason::TextParsingAmbiguity)
                    } else {
                        self.nesting = 1;
                        Ok(mode_for_start(hv))
                    }
                } else {
                    Ok(TextParsingMode::Data)
                }
            },
            None => Ok(TextParsingMode::Data),
        }
    }

    pub fn get_feedback_for_end_tag_name(&mut self, name_hash: Option<u64>)
        requires
            sim_wf(old(self)@),
        ensures
            sim_wf(final(self)@),
            final(self)@ == end_tag_transition(old(self)@, name_hash),
    {
        match name_hash {
            Some(hv) => {
                if is_foreign_root(hv) {
                    if self.foreign_depth > 0 {
                        self.foreign_depth = self.foreign_depth - 1;
                    }
                } else if is_mode_affecting(hv) {
                    self.nesting = 0;
                }
            },
            None => {},
        }
    }

    pub fn note_nested_start(&mut self) -> (r: Result<(), TokenizerBailoutReason>)
        requires
            sim_wf(old(self)@),
        ensures
            sim_wf(final(self)@),
            (final(self)@, r) == nested_start_transition(old(self)@),
    {
        if self.nesting >= MAX_TAG_NESTING {
            Err(TokenizerBailoutReason::MaxTagNestingReached)
        } else {
            self.nesting = self.nesting + 1;
            Ok(())
        }
    }
}

impl Default for TreeBuilderSimulator {
    fn default() -> (r: Self)
        ensures
            r@ == (SimModel { nesting: 0, foreign_depth: 0 }),
            sim_wf(r@),
    {
        TreeBuilderSimulator::new()
    }
}

} // verus!
