//! The public operations: resolve a selector, then encode text or count its
//! tokens with the selected encoding.

use vstd::prelude::*;
use crate::engine::{bpe_fails, encoded_ids, model_tokenizer, resolve_model, Encoder};
use crate::error::TokenizerError;
use crate::names::{
    encoding_of_kind, encoding_of_name, kind_encoding, parse_encoding_name, EncodingName,
};

verus! {

/// Which supported encoding a selector selects: a selector that names an
/// encoding directly selects that encoding; any other selector is looked up
/// in the model table, whose family must be a supported encoding. `None`
/// means the selector resolves to no supported encoding.
pub open spec fn selected_encoding(selector: Seq<char>) -> Option<EncodingName> {
    if encoding_of_name(selector) is Some {
        encoding_of_name(selector)
    } else {
        match model_tokenizer(selector) {
            Some(kind) => encoding_of_kind(kind),
            None => None,
        }
    }
}

/// Resolves a selector to the supported encoding it selects.
pub fn select_encoding(selector: &str) -> (r: Option<EncodingName>)
    ensures
        r == selected_encoding(selector@),
{
    match parse_encoding_name(selector) {
        Some(name) => Some(name),
        None => match resolve_model(selector) {
            Some(kind) => kind_encoding(kind),
            None => None,
        },
    }
}

/// A cache of loaded encodings: each supported encoding is constructed at
/// most once per cache and reused by every later call through it.
pub struct TokenizerCache {
    encoders: Vec<Encoder>,
}

impl TokenizerCache {
    /// Each encoding appears at most once in the cache.
    pub closed spec fn wf(&self) -> bool {
        forall|i: int, j: int|
            0 <= i < j < self.encoders@.len() ==> self.encoders@[i].name_spec()
                != self.encoders@[j].name_spec()
    }

    /// Whether the named encoding is already constructed in this cache.
    pub closed spec fn has_loaded(&self, name: EncodingName) -> bool {
        exists|i: int|
            0 <= i < self.encoders@.len() && self.encoders@[i].name_spec() == name
    }

    /// An empty cache: nothing loaded yet.
    pub fn new() -> (r: TokenizerCache)
        ensures
            r.wf(),
    {
        TokenizerCache { encoders: Vec::new() }
    }

    /// The position of the named encoding in the cache, if it is loaded.
    fn find(&self, name: EncodingName) -> (r: Option<usize>)
        ensures
            r matches Some(i) ==> i < self.encoders@.len() && self.encoders@[i as int].name_spec()
                == name,
            r is None ==> forall|j: int|
                0 <= j < self.encoders@.len() ==> self.encoders@[j].name_spec() != name,
    {
        let mut i: usize = 0;
        while i < self.encoders.len()
            invariant
                i <= self.encoders@.len(),
                forall|j: int| 0 <= j < i ==> self.encoders@[j].name_spec() != name,
            decreases self.encoders@.len() - i,
        {
            if self.encoders[i].name() == name {
                return Some(i);
            }
            i += 1;
        }
        None
    }

    /// The position of the named encoding, loading it on first use. Later
    /// calls with the same name reuse the loaded value; the bundled
    /// vocabularies always load, so the position is always served.
    fn get_or_load(&mut self, name: EncodingName) -> (i: usize)
        requires
            old(self).wf(),
        ensures
            final(self).wf(),
            i < final(self).encoders@.len(),
            final(self).encoders@[i as int].name_spec() == name,
            final(self).has_loaded(name),
            old(self).has_loaded(name) ==> *final(self) == *old(self),
            forall|n: EncodingName| old(self).has_loaded(n) ==> final(self).has_loaded(n),
    {
        match self.find(name) {
            Some(i) => i,
            None => {
                match Encoder::load(name) {
                    Ok(encoder) => {
                        let i = self.encoders.len();
                        self.encoders.push(encoder);
                        proof {
                            assert forall|n: EncodingName|
                                old(self).has_loaded(n) implies self.has_loaded(n) by {
                                let w = choose|w: int|
                                    0 <= w < old(self).encoders@.len()
                                        && old(self).encoders@[w].name_spec() == n;
                                assert(self.encoders@[w].name_spec() == n);
                            }
                        }
                        i
                    },
                    // Encoder::load always returns Ok.
                    Err(_) => unreached(),
                }
            },
        }
    }

    /// Encodes the text into the ordered token-id sequence of the encoding
    /// the selector selects. A selector that selects no supported encoding
    /// fails with `UnknownEncodingOrModel` naming the selector, never with a
    /// silently substituted encoding; empty text encodes to the empty
    /// sequence, and success is a function of the selected encoding and the
    /// text alone.
    pub fn encode(&mut self, selector: &str, text: &str) -> (r: Result<
        Vec<i64>,
        TokenizerError,
    >)
        requires
            old(self).wf(),
        ensures
            final(self).wf(),
            match selected_encoding(selector@) {
                Some(name) => {
                    &&& (r matches Ok(v) ==> v@ == encoded_ids(name, text@) && (text@.len() == 0
                        ==> v@.len() == 0))
                    &&& (r is Ok <==> !bpe_fails(name, text@))
                    &&& (r matches Err(e) ==> e is EncodingError && text@.len() != 0)
                    &&& final(self).has_loaded(name)
                },
                None => r matches Err(e) && (e matches TokenizerError::UnknownEncodingOrModel {
                    selector: s,
                } && s@ == selector@),
            },
    {
        let name = match select_encoding(selector) {
            Some(n) => n,
            None => {
                return Err(
                    TokenizerError::UnknownEncodingOrModel { selector: selector.to_owned() },
                );
            },
        };
        let idx = self.get_or_load(name);
        self.encoders[idx].encode_text(text)
    }

    /// Counts the tokens of the text under the encoding the selector selects:
    /// it succeeds exactly when `encode` succeeds on the same arguments, with
    /// the length of the sequence `encode` returns, and zero for empty text.
    pub fn count(&mut self, selector: &str, text: &str) -> (r: Result<u64, TokenizerError>)
        requires
            old(self).wf(),
        ensures
            final(self).wf(),
            match selected_encoding(selector@) {
                Some(name) => {
                    &&& (r matches Ok(n) ==> n as nat == encoded_ids(name, text@).len() && (
                    text@.len() == 0 ==> n == 0))
                    &&& (r is Ok <==> !bpe_fails(name, text@))
                    &&& (r matches Err(e) ==> e is EncodingError && text@.len() != 0)
                    &&& final(self).has_loaded(name)
                },
                None => r matches Err(e) && (e matches TokenizerError::UnknownEncodingOrModel {
                    selector: s,
                } && s@ == selector@),
            },
    {
        match self.encode(selector, text) {
            Ok(v) => Ok(v.len() as u64),
            Err(e) => Err(e),
        }
    }
}

} // verus!
