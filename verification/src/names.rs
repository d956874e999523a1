//! The closed set of supported encodings and the names that select them.

use vstd::prelude::*;
use crate::strutil::str_eq;

verus! {

/// One of the supported canonical encodings: an immutable bundle of a byte
/// vocabulary, a merge-rank table and a set of special tokens, identified by
/// its canonical name.
#[derive(Clone, Copy, PartialEq, Eq, Structural, Debug)]
pub enum EncodingName {
    Cl100kBase,
    R50kBase,
    P50kBase,
    P50kEdit,
}

/// A tokenizer family that the model table can name. The supported encodings
/// appear here next to families this library does not bundle.
#[derive(Clone, Copy, PartialEq, Eq, Structural, Debug)]
pub enum TokenizerKind {
    O200kHarmony,
    O200kBase,
    Cl100kBase,
    P50kBase,
    R50kBase,
    P50kEdit,
    Gpt2,
}

/// The canonical name of an encoding, as callers write it.
pub open spec fn canonical_name(name: EncodingName) -> Seq<char> {
    match name {
        EncodingName::Cl100kBase => "cl100k_base"@,
        EncodingName::R50kBase => "r50k_base"@,
        EncodingName::P50kBase => "p50k_base"@,
        EncodingName::P50kEdit => "p50k_edit"@,
    }
}

/// Which encoding a selector names directly: each canonical name selects its
/// own encoding, and the legacy alias `gpt2` selects `r50k_base`.
pub open spec fn encoding_of_name(s: Seq<char>) -> Option<EncodingName> {
    if s == "cl100k_base"@ {
        Some(EncodingName::Cl100kBase)
    } else if s == "r50k_base"@ || s == "gpt2"@ {
        Some(EncodingName::R50kBase)
    } else if s == "p50k_base"@ {
        Some(EncodingName::P50kBase)
    } else if s == "p50k_edit"@ {
        Some(EncodingName::P50kEdit)
    } else {
        None
    }
}

/// Which supported encoding a tokenizer family uses, if any. The `gpt2`
/// family shares the `r50k_base` vocabulary; the `o200k` families are not in
/// the supported set.
pub open spec fn encoding_of_kind(kind: TokenizerKind) -> Option<EncodingName> {
    match kind {
        TokenizerKind::O200kHarmony => None,
        TokenizerKind::O200kBase => None,
        TokenizerKind::Cl100kBase => Some(EncodingName::Cl100kBase),
        TokenizerKind::P50kBase => Some(EncodingName::P50kBase),
        TokenizerKind::R50kBase => Some(EncodingName::R50kBase),
        TokenizerKind::P50kEdit => Some(EncodingName::P50kEdit),
        TokenizerKind::Gpt2 => Some(EncodingName::R50kBase),
    }
}

impl EncodingName {
    /// The canonical name, as a fresh string.
    pub fn as_string(&self) -> (r: String)
        ensures
            r@ == canonical_name(*self),
    {
        match self {
            EncodingName::Cl100kBase => "cl100k_base".to_owned(),
            EncodingName::R50kBase => "r50k_base".to_owned(),
            EncodingName::P50kBase => "p50k_base".to_owned(),
            EncodingName::P50kEdit => "p50k_edit".to_owned(),
        }
    }
}

/// Parses a selector that names an encoding directly.
pub fn parse_encoding_name(s: &str) -> (r: Option<EncodingName>)
    ensures
        r == encoding_of_name(s@),
{
    if str_eq(s, "cl100k_base") {
        Some(EncodingName::Cl100kBase)
    } else if str_eq(s, "r50k_base") || str_eq(s, "gpt2") {
        Some(EncodingName::R50kBase)
    } else if str_eq(s, "p50k_base") {
        Some(EncodingName::P50kBase)
    } else if str_eq(s, "p50k_edit") {
        Some(EncodingName::P50kEdit)
    } else {
        None
    }
}

/// Maps a tokenizer family to its supported encoding.
pub fn kind_encoding(kind: TokenizerKind) -> (r: Option<EncodingName>)
    ensures
        r == encoding_of_kind(kind),
{
    match kind {
        TokenizerKind::O200kHarmony => None,
        TokenizerKind::O200kBase => None,
        TokenizerKind::Cl100kBase => Some(EncodingName::Cl100kBase),
        TokenizerKind::P50kBase => Some(EncodingName::P50kBase),
        TokenizerKind::R50kBase => Some(EncodingName::R50kBase),
        TokenizerKind::P50kEdit => Some(EncodingName::P50kEdit),
        TokenizerKind::Gpt2 => Some(EncodingName::R50kBase),
    }
}

} // verus!
