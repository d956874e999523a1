//! The tokenization engine: loaded encodings, the model table, and the
//! trusted boundary to the BPE implementation that backs them.

use vstd::prelude::*;
use crate::error::TokenizerError;
use crate::names::{EncodingName, TokenizerKind};

verus! {

#[verifier::external_type_specification]
#[verifier::external_body]
pub struct ExCoreBPE(tiktoken_rs::CoreBPE);

#[verifier::external_type_specification]
#[verifier::external_body]
pub struct ExEncodeError(tiktoken_rs::EncodeError);

#[verifier::external_type_specification]
#[verifier::external_body]
pub struct ExAnyhowError(anyhow::Error);

/// The token sequence an encoding assigns to a text. The BPE merge loop is
/// deterministic (lowest merge rank first, leftmost on ties), so the result
/// is a function of the encoding and the characters alone.
pub uninterp spec fn tokens_of(name: EncodingName, text: Seq<char>) -> Seq<u32>;

/// Whether the engine fails to tokenize a text under an encoding. Failure
/// comes only from the engine's pre-tokenization regex scan, whose outcome —
/// like the token sequence itself — is a function of the encoding and the
/// characters alone.
pub uninterp spec fn bpe_fails(name: EncodingName, text: Seq<char>) -> bool;

/// What the model table answers for a selector: a fixed compiled-in mapping
/// from model names to tokenizer families, a function of the selector alone.
pub uninterp spec fn model_tokenizer(selector: Seq<char>) -> Option<TokenizerKind>;

/// The token ids an encoding assigns to a text, widened to the 64-bit
/// integers handed to hosts.
pub open spec fn encoded_ids(name: EncodingName, text: Seq<char>) -> Seq<i64> {
    tokens_of(name, text).map_values(|t: u32| t as i64)
}

/// Relies on tiktoken_rs::tokenizer::get_tokenizer: it resolves a model name
/// to its tokenizer family through a fixed compiled-in table (exact names
/// first, then known prefixes, with a fine-tune prefix stripped), and answers
/// None for a name the table does not know.
#[verifier::external_body]
pub(crate) fn resolve_model(selector: &str) -> (r: Option<TokenizerKind>)
    ensures
        r == model_tokenizer(selector@),
{
    match tiktoken_rs::tokenizer::get_tokenizer(selector) {
        None => None,
        Some(tiktoken_rs::tokenizer::Tokenizer::O200kHarmony) => Some(TokenizerKind::O200kHarmony),
        Some(tiktoken_rs::tokenizer::Tokenizer::O200kBase) => Some(TokenizerKind::O200kBase),
        Some(tiktoken_rs::tokenizer::Tokenizer::Cl100kBase) => Some(TokenizerKind::Cl100kBase),
        Some(tiktoken_rs::tokenizer::Tokenizer::P50kBase) => Some(TokenizerKind::P50kBase),
        Some(tiktoken_rs::tokenizer::Tokenizer::R50kBase) => Some(TokenizerKind::R50kBase),
        Some(tiktoken_rs::tokenizer::Tokenizer::P50kEdit) => Some(TokenizerKind::P50kEdit),
        Some(tiktoken_rs::tokenizer::Tokenizer::Gpt2) => Some(TokenizerKind::Gpt2),
    }
}

/// A loaded encoding: its vocabulary, merge ranks and special tokens, ready
/// to encode text. Immutable once constructed; construction parses the
/// bundled vocabulary once, so callers cache and reuse the value.
pub struct Encoder {
    name: EncodingName,
    bpe: tiktoken_rs::CoreBPE,
}

/// Relies on tiktoken_rs::cl100k_base: it builds the cl100k_base encoding
/// from its bundled vocabulary. The vocabulary is a fixed well-formed asset
/// compiled into the binary, so construction succeeds. The pairing of the
/// built value with its name here and in the three loaders below is what
/// `Encoder::encode_raw` rests on.
#[verifier::external_body]
fn load_cl100k() -> (r: Result<Encoder, anyhow::Error>)
    ensures
        r is Ok,
        r matches Ok(e) ==> e.name_spec() == EncodingName::Cl100kBase,
{
    tiktoken_rs::cl100k_base().map(|bpe| Encoder { name: EncodingName::Cl100kBase, bpe })
}

/// Relies on tiktoken_rs::r50k_base: it builds the r50k_base encoding from
/// its bundled vocabulary, a fixed well-formed compiled-in asset, so
/// construction succeeds.
#[verifier::external_body]
fn load_r50k() -> (r: Result<Encoder, anyhow::Error>)
    ensures
        r is Ok,
        r matches Ok(e) ==> e.name_spec() == EncodingName::R50kBase,
{
    tiktoken_rs::r50k_base().map(|bpe| Encoder { name: EncodingName::R50kBase, bpe })
}

/// Relies on tiktoken_rs::p50k_base: it builds the p50k_base encoding from
/// its bundled vocabulary, a fixed well-formed compiled-in asset, so
/// construction succeeds.
#[verifier::external_body]
fn load_p50k() -> (r: Result<Encoder, anyhow::Error>)
    ensures
        r is Ok,
        r matches Ok(e) ==> e.name_spec() == EncodingName::P50kBase,
{
    tiktoken_rs::p50k_base().map(|bpe| Encoder { name: EncodingName::P50kBase, bpe })
}

/// Relies on tiktoken_rs::p50k_edit: it builds the p50k_edit encoding from
/// its bundled vocabulary, a fixed well-formed compiled-in asset, so
/// construction succeeds.
#[verifier::external_body]
fn load_p50k_edit() -> (r: Result<Encoder, anyhow::Error>)
    ensures
        r is Ok,
        r matches Ok(e) ==> e.name_spec() == EncodingName::P50kEdit,
{
    tiktoken_rs::p50k_edit().map(|bpe| Encoder { name: EncodingName::P50kEdit, bpe })
}

impl Encoder {
    /// The encoding this value applies.
    pub closed spec fn name_spec(&self) -> EncodingName {
        self.name
    }

    /// The encoding this value applies.
    pub fn name(&self) -> (r: EncodingName)
        ensures
            r == self.name_spec(),
    {
        self.name
    }

    /// Loads a supported encoding from its bundled vocabulary. The
    /// vocabularies are compiled in and well-formed, so loading succeeds for
    /// every supported name.
    pub fn load(name: EncodingName) -> (r: Result<Encoder, TokenizerError>)
        ensures
            r is Ok,
            r matches Ok(e) ==> e.name_spec() == name,
    {
        let loaded = match name {
            EncodingName::Cl100kBase => load_cl100k(),
            EncodingName::R50kBase => load_r50k(),
            EncodingName::P50kBase => load_p50k(),
            EncodingName::P50kEdit => load_p50k_edit(),
        };
        match loaded {
            Ok(e) => Ok(e),
            Err(_) => Err(TokenizerError::ResourceLoadFailure),
        }
    }

    /// Relies on tiktoken_rs::CoreBPE::encode, given every special token of
    /// the encoding as allowed — the behaviour of encode_with_special_tokens,
    /// except that a tokenization failure is returned instead of unwrapped.
    /// The loaders above pair each CoreBPE with its name, so a successful
    /// result is the sequence that `self.name` assigns to the text; empty
    /// text has no pieces and yields the empty sequence. Whether the call
    /// fails — a runtime limit of the regex scan — depends, like the tokens,
    /// on the encoding and the text alone: `bpe_fails` names that condition.
    #[verifier::external_body]
    fn encode_raw(&self, text: &str) -> (r: Result<Vec<u32>, tiktoken_rs::EncodeError>)
        ensures
            r matches Ok(v) ==> v@ == tokens_of(self.name, text@) && (text@.len() == 0 ==> v@.len()
                == 0),
            r is Ok <==> !bpe_fails(self.name, text@),
            r is Err ==> text@.len() != 0,
    {
        let allowed = self.bpe.special_tokens();
        self.bpe.encode(text, &allowed).map(|pair| pair.0)
    }

    /// Encodes the text into the ordered token-id sequence of this encoding.
    /// Empty text yields the empty sequence; success is a function of the
    /// encoding and the text alone.
    pub fn encode_text(&self, text: &str) -> (r: Result<Vec<i64>, TokenizerError>)
        ensures
            r matches Ok(v) ==> v@ == encoded_ids(self.name_spec(), text@) && (text@.len() == 0
                ==> v@.len() == 0),
            r is Ok <==> !bpe_fails(self.name_spec(), text@),
            r matches Err(e) ==> e is EncodingError && text@.len() != 0,
    {
        match self.encode_raw(text) {
            Ok(tokens) => Ok(widen_ids(&tokens)),
            Err(_) => Err(TokenizerError::EncodingError),
        }
    }
}

/// Widens token ids to the 64-bit integers handed to hosts.
fn widen_ids(tokens: &Vec<u32>) -> (r: Vec<i64>)
    ensures
        r@ == tokens@.map_values(|t: u32| t as i64),
{
    let mut out: Vec<i64> = Vec::new();
    let mut i: usize = 0;
    while i < tokens.len()
        invariant
            i <= tokens@.len(),
            out@ == tokens@.subrange(0, i as int).map_values(|t: u32| t as i64),
        decreases tokens@.len() - i,
    {
        out.push(tokens[i] as i64);
        proof {
            assert(tokens@.subrange(0, (i + 1) as int) =~= tokens@.subrange(0, i as int).push(
                tokens@[i as int],
            ));
            assert(out@ =~= tokens@.subrange(0, (i + 1) as int).map_values(|t: u32| t as i64));
        }
        i += 1;
    }
    proof {
        assert(tokens@.subrange(0, tokens@.len() as int) =~= tokens@);
    }
    out
}

} // verus!
