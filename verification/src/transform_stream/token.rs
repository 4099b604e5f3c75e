//! Tokens: the owned, mutable form of a lexeme that a transformation
//! policy can rewrite in place, their canonical serialization, and
//! the token capturer that decides — from the current capture flags —
//! whether a lexeme is materialized into a token at all.

use crate::transform_stream::lexeme::{
    non_tag_lexeme_wf, tag_lexeme_wf, NonTagContentLexeme, NonTagContentTokenOutline, TagLexeme,
    TagTokenOutline,
};
use vstd::prelude::*;

verus! {

/// Relies on `encoding_rs::Encoding`, the descriptor of the document
/// encoding; the dispatcher carries it for the token consumers.  It
/// is opaque here: no field of it is read by verified code.
#[verifier::external_type_specification]
#[verifier::external_body]
pub struct ExEncoding(encoding_rs::Encoding);

/// An owned attribute of a rewritable start-tag token.
#[derive(Debug, Clone, PartialEq, Eq)]
pub struct TokenAttribute {
    pub name: Vec<u8>,
    pub value: Vec<u8>,
}

pub struct AttrModel {
    pub name: Seq<u8>,
    pub value: Seq<u8>,
}

impl View for TokenAttribute {
    type V = AttrModel;

    open spec fn view(&self) -> AttrModel {
        AttrModel { name: self.name@, value: self.value@ }
    }
}

/// The owned, mutable form of a lexeme, handed to the transformation
/// policy for in-place rewriting before serialization.
#[derive(Debug, Clone, PartialEq, Eq)]
pub enum Token {
    Character { text: Vec<u8> },
    Comment { text: Vec<u8> },
    StartTag { name: Vec<u8>, attributes: Vec<TokenAttribute>, self_closing: bool },
    EndTag { name: Vec<u8> },
    Eof,
}

pub enum TokenModel {
    Character { text: Seq<u8> },
    Comment { text: Seq<u8> },
    StartTag { name: Seq<u8>, attributes: Seq<AttrModel>, self_closing: bool },
    EndTag { name: Seq<u8> },
    Eof,
}

impl View for Token {
    type V = TokenModel;

    open spec fn view(&self) -> TokenModel {
        match self {
            Token::Character { text } => TokenModel::Character { text: text@ },
            Token::Comment { text } => TokenModel::Comment { text: text@ },
            Token::StartTag { name, attributes, self_closing } => TokenModel::StartTag {
                name: name@,
                attributes: attributes@.map(|i: int, a: TokenAttribute| a@),
                self_closing: *self_closing,
            },
            Token::EndTag { name } => TokenModel::EndTag { name: name@ },
            Token::Eof => TokenModel::Eof,
        }
    }
}

/// ` name="value"`.
pub open spec fn serialize_attr(a: AttrModel) -> Seq<u8> {
    seq![32u8] + a.name + seq![61u8, 34u8] + a.value + seq![34u8]
}

pub open spec fn serialize_attrs(attrs: Seq<AttrModel>) -> Seq<u8>
    decreases attrs.len(),
{
    if attrs.len() == 0 {
        Seq::empty()
    } else {
        serialize_attrs(attrs.drop_last()) + serialize_attr(attrs.last())
    }
}

/// The canonical serialized form of a (possibly rewritten) token.
pub open spec fn serialize_token(t: TokenModel) -> Seq<u8> {
    match t {
        TokenModel::Character { text } => text,
        TokenModel::Comment { text } => seq![60u8, 33u8, 45u8, 45u8] + text + seq![
            45u8,
            45u8,
            62u8,
        ],
        TokenModel::StartTag { name, attributes, self_closing } => seq![60u8] + name
            + serialize_attrs(attributes) + (if self_closing {
            seq![47u8, 62u8]
        } else {
            seq![62u8]
        }),
        TokenModel::EndTag { name } => seq![60u8, 47u8] + name + seq![62u8],
        TokenModel::Eof => Seq::empty(),
    }
}

/// Copies `input[start..end]` into an owned vector.
pub fn copy_range(input: &[u8], start: usize, end: usize) -> (r: Vec<u8>)
    requires
        start <= end <= input@.len(),
    ensures
        r@ == input@.subrange(start as int, end as int),
{
    let mut r: Vec<u8> = Vec::new();
    let mut i: usize = start;
    while i < end
        invariant
            start <= i <= end <= input@.len(),
            r@ == input@.subrange(start as int, i as int),
        decreases end - i,
    {
        r.push(input[i]);
        i = i + 1;
        proof {
            assert(input@.subrange(start as int, i as int) == input@.subrange(
                start as int,
                i - 1,
            ).push(input@[i - 1]));
        }
    }
    r
}

fn push_bytes(dst: &mut Vec<u8>, src: &Vec<u8>)
    ensures
        final(dst)@ == old(dst)@ + src@,
{
    let mut i: usize = 0;
    while i < src.len()
        invariant
            i <= src@.len(),
            dst@ == old(dst)@ + src@.subrange(0, i as int),
        decreases src@.len() - i,
    {
        dst.push(src[i]);
        i = i + 1;
        proof {
            assert(src@.subrange(0, i as int) == src@.subrange(0, i - 1).push(src@[i - 1]));
        }
    }
    proof {
        assert(src@.subrange(0, src@.len() as int) == src@);
    }
}

impl Token {
    /// Serializes the token; what the dispatcher sends to the output
    /// sink in place of a rewritten lexeme's raw bytes.
    pub fn to_bytes(&self) -> (r: Vec<u8>)
        ensures
            r@ == serialize_token(self@),
    {
        match self {
            Token::Character { text } => {
                let mut out: Vec<u8> = Vec::new();
                push_bytes(&mut out, text);
                proof {
                    assert(out@ =~= serialize_token(self@));
                }
                out
            },
            Token::Comment { text } => {
                let mut out: Vec<u8> = Vec::new();
                out.push(60);
                out.push(33);
                out.push(45);
                out.push(45);
                push_bytes(&mut out, text);
                out.push(45);
                out.push(45);
                out.push(62);
                proof {
                    assert(out@ =~= serialize_token(self@));
                }
                out
            },
            Token::StartTag { name, attributes, self_closing } => {
                let mut out: Vec<u8> = Vec::new();
                out.push(60);
                push_bytes(&mut out, name);
                let ghost attrs_model = attributes@.map(|i: int, a: TokenAttribute| a@);
                let mut i: usize = 0;
                while i < attributes.len()
                    invariant
                        i <= attributes@.len(),
                        attrs_model == attributes@.map(|k: int, a: TokenAttribute| a@),
                        out@ == seq![60u8] + name@ + serialize_attrs(
                            attrs_model.subrange(0, i as int),
                        ),
                    decreases attributes@.len() - i,
                {
                    let a = &attributes[i];
                    out.push(32);
                    push_bytes(&mut out, &a.name);
                    out.push(61);
                    out.push(34);
                    push_bytes(&mut out, &a.value);
                    out.push(34);
                    i = i + 1;
                    proof {
                        let pre = attrs_model.subrange(0, i - 1);
                        let cur = attrs_model.subrange(0, i as int);
                        assert(cur.drop_last() =~= pre);
                        assert(cur.last() == attrs_model[i - 1]);
                        assert(out@ =~= seq![60u8] + name@ + (serialize_attrs(pre)
                            + serialize_attr(attrs_model[i - 1])));
                    }
                }
                proof {
                    assert(attrs_model.subrange(0, attrs_model.len() as int) =~= attrs_model);
                }
                if *self_closing {
                    out.push(47);
                    out.push(62);
                } else {
                    out.push(62);
                }
                proof {
                    assert(out@ =~= serialize_token(self@));
                }
                out
            },
            Token::EndTag { name } => {
                let mut out: Vec<u8> = Vec::new();
                out.push(60);
                out.push(47);
                push_bytes(&mut out, name);
                out.push(62);
                proof {
                    assert(out@ =~= serialize_token(self@));
                }
                out
            },
            Token::Eof => Vec::new(),
        }
    }
}

/// Which lexical-unit kinds the transformation policy currently wants
/// delivered as full tokens.
#[derive(Debug, Clone, Copy, PartialEq, Eq, Structural)]
pub struct TokenCaptureFlags {
    pub text: bool,
    pub comments: bool,
    pub start_tags: bool,
    pub end_tags: bool,
}

impl TokenCaptureFlags {
    pub fn none() -> (r: Self)
        ensures
            r == (TokenCaptureFlags { text: false, comments: false, start_tags: false, end_tags: false }),
    {
        TokenCaptureFlags { text: false, comments: false, start_tags: false, end_tags: false }
    }
}

pub open spec fn flags_any(f: TokenCaptureFlags) -> bool {
    f.text || f.comments || f.start_tags || f.end_tags
}

pub open spec fn captures_tag(f: TokenCaptureFlags, outline: TagTokenOutline) -> bool {
    match outline {
        TagTokenOutline::StartTag { .. } => f.start_tags,
        TagTokenOutline::EndTag { .. } => f.end_tags,
    }
}

pub open spec fn captures_non_tag(f: TokenCaptureFlags, outline: NonTagContentTokenOutline) -> bool {
    match outline {
        NonTagContentTokenOutline::Character => f.text,
        NonTagContentTokenOutline::Comment { .. } => f.comments,
        NonTagContentTokenOutline::Eof => false,
    }
}

/// The bytes a part range denotes, relative to a raw range's start.
pub open spec fn part_bytes(input: Seq<u8>, base: int, part: crate::tokenizer::lex_unit::SliceRange) -> Seq<u8> {
    input.subrange(base + part.start, base + part.end)
}

/// The token a tag lexeme materializes into, byte for byte.
pub open spec fn token_of_tag(input: Seq<u8>, lex: TagLexeme) -> TokenModel {
    let base = lex.raw_range.start as int;
    match lex.outline {
        TagTokenOutline::StartTag { name, attributes, self_closing, .. } => TokenModel::StartTag {
            name: part_bytes(input, base, name),
            attributes: attributes@.map(
                |i: int, a: crate::tokenizer::lex_unit::AttributeView| AttrModel {
                    name: part_bytes(input, base, a.name),
                    value: part_bytes(input, base, a.value),
                },
            ),
            self_closing,
        },
        TagTokenOutline::EndTag { name, .. } => TokenModel::EndTag {
            name: part_bytes(input, base, name),
        },
    }
}

/// The token a non-tag lexeme materializes into.
pub open spec fn token_of_non_tag(input: Seq<u8>, lex: NonTagContentLexeme) -> TokenModel {
    let base = lex.raw_range.start as int;
    match lex.outline {
        NonTagContentTokenOutline::Character => TokenModel::Character {
            text: input.subrange(base, lex.raw_range.end as int),
        },
        NonTagContentTokenOutline::Comment { text } => TokenModel::Comment {
            text: part_bytes(input, base, text),
        },
        NonTagContentTokenOutline::Eof => TokenModel::Eof,
    }
}

/// The token-capturing collaborator: materializes a lexeme into a
/// token exactly when the current capture flags ask for its kind.
pub struct TokenCapturer {
    capture_flags: TokenCaptureFlags,
    encoding: &'static encoding_rs::Encoding,
}

impl TokenCapturer {
    pub closed spec fn flags(&self) -> TokenCaptureFlags {
        self.capture_flags
    }

    pub fn new(initial_capture_flags: TokenCaptureFlags, encoding: &'static encoding_rs::Encoding) -> (r: Self)
        ensures
            r.flags() == initial_capture_flags,
    {
        TokenCapturer { capture_flags: initial_capture_flags, encoding }
    }

    /// The document encoding the capturer was created with.
    pub fn encoding(&self) -> (r: &'static encoding_rs::Encoding) {
        self.encoding
    }

    pub fn set_capture_flags(&mut self, flags: TokenCaptureFlags)
        ensures
            final(self).flags() == flags,
    {
        self.capture_flags = flags;
    }

    pub fn has_captures(&self) -> (r: bool)
        ensures
            r == flags_any(self.flags()),
    {
        self.capture_flags.text || self.capture_flags.comments || self.capture_flags.start_tags
            || self.capture_flags.end_tags
    }

    /// Feeds a tag lexeme: `Some` carries the materialized token
    /// exactly when the flags capture its kind; `None` means the raw
    /// bytes flow through untouched.
    pub fn feed_tag(&self, input: &[u8], lexeme: &TagLexeme) -> (r: Option<Token>)
        requires
            tag_lexeme_wf(input@, *lexeme),
        ensures
            r is Some <==> captures_tag(self.flags(), lexeme.outline),
            r is Some ==> r->Some_0@ == token_of_tag(input@, *lexeme),
    {
        let base = lexeme.raw_range.start;
        match &lexeme.outline {
            TagTokenOutline::StartTag { name, attributes, self_closing, .. } => {
                if self.capture_flags.start_tags {
                    let mut attrs: Vec<TokenAttribute> = Vec::new();
                    let ghost target = attributes@.map(
                        |i: int, a: crate::tokenizer::lex_unit::AttributeView| AttrModel {
                            name: part_bytes(input@, base as int, a.name),
                            value: part_bytes(input@, base as int, a.value),
                        },
                    );
                    let mut i: usize = 0;
                    while i < attributes.len()
                        invariant
                            i <= attributes@.len(),
                            attrs@.len() == i as int,
                            target == attributes@.map(
                                |k: int, a: crate::tokenizer::lex_unit::AttributeView| AttrModel {
                                    name: part_bytes(input@, base as int, a.name),
                                    value: part_bytes(input@, base as int, a.value),
                                },
                            ),
                            forall|k: int| 0 <= k < i as int ==> #[trigger] attrs@[k]@ == target[k],
                            tag_lexeme_wf(input@, *lexeme),
                            base == lexeme.raw_range.start,
                            lexeme.outline matches TagTokenOutline::StartTag {
                                attributes: atts,
                                ..
                            } && atts == *attributes,
                        decreases attributes@.len() - i,
                    {
                        let ghost prev = attrs@;
                        let a = attributes[i];
                        let an = copy_range(input, base + a.name.start, base + a.name.end);
                        let av = copy_range(input, base + a.value.start, base + a.value.end);
                        let ghost elem_model = AttrModel { name: an@, value: av@ };
                        attrs.push(TokenAttribute { name: an, value: av });
                        i = i + 1;
                        proof {
                            assert(attrs@.len() == i as int);
                            assert(attrs@[i - 1]@ == elem_model);
                            assert(target[i - 1] == elem_model);
                            assert forall|k: int| 0 <= k < i as int implies #[trigger] attrs@[k]@
                                == target[k] by {
                                if k < i - 1 {
                                    assert(attrs@[k] == prev[k]);
                                }
                            }
                        }
                    }
                    proof {
                        let m = attrs@.map(|k: int, a: TokenAttribute| a@);
                        assert(target.len() == attributes@.len());
                        assert forall|k: int| 0 <= k < m.len() implies m[k] == target[k] by {
                            assert(attrs@[k]@ == target[k]);
                        }
                        assert(m =~= target);
                    }
                    let tok = Token::StartTag {
                        name: copy_range(input, base + name.start, base + name.end),
                        attributes: attrs,
                        self_closing: *self_closing,
                    };
                    proof {
                        assert(tok@ == token_of_tag(input@, *lexeme));
                    }
                    Some(tok)
                } else {
                    None
                }
            },
            TagTokenOutline::EndTag { name, .. } => {
                if self.capture_flags.end_tags {
                    Some(
                        Token::EndTag {
                            name: copy_range(input, base + name.start, base + name.end),
                        },
                    )
                } else {
                    None
                }
            },
        }
    }

    /// Feeds a non-tag lexeme; as `feed_tag`.
    pub fn feed_non_tag(&self, input: &[u8], lexeme: &NonTagContentLexeme) -> (r: Option<Token>)
        requires
            non_tag_lexeme_wf(input@, *lexeme),
        ensures
            r is Some <==> captures_non_tag(self.flags(), lexeme.outline),
            r is Some ==> r->Some_0@ == token_of_non_tag(input@, *lexeme),
    {
        let base = lexeme.raw_range.start;
        match &lexeme.outline {
            NonTagContentTokenOutline::Character => {
                if self.capture_flags.text {
                    Some(Token::Character { text: copy_range(input, base, lexeme.raw_range.end) })
                } else {
                    None
                }
            },
            NonTagContentTokenOutline::Comment { text } => {
                if self.capture_flags.comments {
                    Some(
                        Token::Comment {
                            text: copy_range(input, base + text.start, base + text.end),
                        },
                    )
                } else {
                    None
                }
            },
            NonTagContentTokenOutline::Eof => None,
        }
    }
}

} // verus!
