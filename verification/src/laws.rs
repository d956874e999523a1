//! Properties that relate the public operations, proved once for all inputs.

use vstd::prelude::*;
use crate::api::selected_encoding;
use crate::engine::{bpe_fails, encoded_ids};
use crate::names::{canonical_name, EncodingName};

verus! {

/// A successful count equals the length of a successful encode for the same
/// selector and text: both are pinned to the token ids that the selected
/// encoding assigns to the text.
pub proof fn lemma_count_is_encode_length(
    name: EncodingName,
    text: Seq<char>,
    ids: Seq<i64>,
    n: u64,
)
    requires
        ids == encoded_ids(name, text),
        n as nat == encoded_ids(name, text).len(),
    ensures
        n as nat == ids.len(),
{
}

/// Re-encoding the same selector and text yields identical output: every
/// successful result equals the ids the selected encoding assigns, so any
/// two successful results are equal.
pub proof fn lemma_encode_deterministic(
    name: EncodingName,
    text: Seq<char>,
    first: Seq<i64>,
    second: Seq<i64>,
)
    requires
        first == encoded_ids(name, text),
        second == encoded_ids(name, text),
    ensures
        first == second,
{
}

/// Whether a call succeeds is itself a function of the selected encoding and
/// the text: any two calls with the same selection and text either both
/// succeed or both fail. Together with the value determinism above, count
/// succeeds exactly when encode does, and re-encoding reproduces its first
/// run call for call.
pub proof fn lemma_success_deterministic(
    name: EncodingName,
    text: Seq<char>,
    first_ok: bool,
    second_ok: bool,
)
    requires
        first_ok == !bpe_fails(name, text),
        second_ok == !bpe_fails(name, text),
    ensures
        first_ok == second_ok,
{
}

/// Every emitted token id is non-negative and fits 32 bits: ids are ranks,
/// widened to 64-bit integers only for host compatibility.
pub proof fn lemma_ids_fit_32_bits(name: EncodingName, text: Seq<char>)
    ensures
        forall|i: int|
            0 <= i < encoded_ids(name, text).len() ==> 0 <= #[trigger] encoded_ids(name, text)[i]
                < 0x1_0000_0000,
{
}

/// A canonical encoding name, given as the selector, always selects its own
/// encoding.
pub proof fn lemma_canonical_name_selects_itself(name: EncodingName)
    ensures
        selected_encoding(canonical_name(name)) == Some(name),
{
    lemma_supported_names_distinct();
}

/// The five selectors of the direct-name table differ pairwise: they differ
/// in length, in their first character, or in their sixth.
proof fn lemma_supported_names_distinct()
    ensures
        "cl100k_base"@ != "r50k_base"@,
        "cl100k_base"@ != "p50k_base"@,
        "cl100k_base"@ != "p50k_edit"@,
        "cl100k_base"@ != "gpt2"@,
        "r50k_base"@ != "p50k_base"@,
        "r50k_base"@ != "p50k_edit"@,
        "r50k_base"@ != "gpt2"@,
        "p50k_base"@ != "p50k_edit"@,
        "p50k_base"@ != "gpt2"@,
        "p50k_edit"@ != "gpt2"@,
{
    reveal_strlit("cl100k_base");
    reveal_strlit("r50k_base");
    reveal_strlit("p50k_base");
    reveal_strlit("p50k_edit");
    reveal_strlit("gpt2");
    assert("cl100k_base"@.len() == 11);
    assert("r50k_base"@.len() == 9);
    assert("p50k_base"@.len() == 9);
    assert("p50k_edit"@.len() == 9);
    assert("gpt2"@.len() == 4);
    assert("r50k_base"@[0] == 'r');
    assert("p50k_base"@[0] == 'p');
    assert("p50k_edit"@[0] == 'p');
    assert("p50k_base"@[5] == 'b');
    assert("p50k_edit"@[5] == 'e');
}

/// A selector that selects a supported encoding produces byte-identical
/// output to that encoding's canonical name given directly: both select the
/// same encoding, and the token ids are a function of the selected encoding
/// and the text alone.
pub proof fn lemma_alias_matches_canonical(selector: Seq<char>, name: EncodingName)
    requires
        selected_encoding(selector) == Some(name),
    ensures
        selected_encoding(canonical_name(name)) == selected_encoding(selector),
{
    lemma_canonical_name_selects_itself(name);
}

/// The legacy alias `gpt2` selects the same encoding as `r50k_base`, so the
/// two selectors encode every text identically.
pub proof fn lemma_gpt2_matches_r50k()
    ensures
        selected_encoding("gpt2"@) == selected_encoding("r50k_base"@),
        selected_encoding("gpt2"@) == Some(EncodingName::R50kBase),
{
    lemma_supported_names_distinct();
}

} // verus!
