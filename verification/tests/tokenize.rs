use tiktoken_core::api::{select_encoding, TokenizerCache};
use tiktoken_core::error::TokenizerError;
use tiktoken_core::names::EncodingName;

fn encode(selector: &str, text: &str) -> Vec<i64> {
    let mut cache = TokenizerCache::new();
    cache.encode(selector, text).unwrap()
}

fn count(selector: &str, text: &str) -> u64 {
    let mut cache = TokenizerCache::new();
    cache.count(selector, text).unwrap()
}

const SPACES: &str = "This is a test         with a lot of spaces<|endoftext|>";
const GALAXY: &str = "A long time ago in a galaxy far, far away";

#[test]
fn encode_spaces_r50k() {
    assert_eq!(
        encode("r50k_base", SPACES),
        vec![
            1212, 318, 257, 1332, 220, 220, 220, 220, 220, 220, 220, 220, 351, 257, 1256, 286,
            9029, 50256
        ]
    );
}

#[test]
fn encode_spaces_cl100k() {
    assert_eq!(
        encode("cl100k_base", SPACES),
        vec![2028, 374, 264, 1296, 260, 449, 264, 2763, 315, 12908, 100257]
    );
}

#[test]
fn encode_spaces_p50k() {
    assert_eq!(
        encode("p50k_base", SPACES),
        vec![1212, 318, 257, 1332, 50263, 351, 257, 1256, 286, 9029, 50256]
    );
}

#[test]
fn encode_spaces_p50k_edit() {
    assert_eq!(
        encode("p50k_edit", SPACES),
        vec![1212, 318, 257, 1332, 50263, 351, 257, 1256, 286, 9029, 50256]
    );
}

#[test]
fn count_galaxy_all_encodings() {
    assert_eq!(count("p50k_base", GALAXY), 11);
    assert_eq!(count("cl100k_base", GALAXY), 11);
    assert_eq!(count("r50k_base", GALAXY), 11);
    assert_eq!(count("p50k_edit", GALAXY), 11);
}

#[test]
fn model_aliases_match_canonical() {
    assert_eq!(encode("text-davinci-002", GALAXY), encode("p50k_base", GALAXY));
    assert_eq!(encode("gpt-3.5-turbo", GALAXY), encode("cl100k_base", GALAXY));
    assert_eq!(encode("gpt2", GALAXY), encode("r50k_base", GALAXY));
    assert_eq!(encode("code-davinci-edit-001", GALAXY), encode("p50k_edit", GALAXY));
}

#[test]
fn model_alias_selects_encoding() {
    assert_eq!(select_encoding("gpt-3.5-turbo"), Some(EncodingName::Cl100kBase));
    assert_eq!(select_encoding("gpt2"), Some(EncodingName::R50kBase));
    assert_eq!(select_encoding("text-davinci-003"), Some(EncodingName::P50kBase));
    assert_eq!(select_encoding("ft:gpt-3.5-turbo:my-org:2024"), Some(EncodingName::Cl100kBase));
    assert_eq!(select_encoding("no-such-model"), None);
}

#[test]
fn error_messages_describe_failures() {
    assert_eq!(
        TokenizerError::ResourceLoadFailure.message(),
        "the encoding's vocabulary failed to load"
    );
    assert_eq!(TokenizerError::EncodingError.message(), "the text could not be tokenized");
}

#[test]
fn canonical_names_select_themselves() {
    for name in [
        EncodingName::Cl100kBase,
        EncodingName::R50kBase,
        EncodingName::P50kBase,
        EncodingName::P50kEdit,
    ] {
        assert_eq!(select_encoding(name.as_string().as_str()), Some(name));
    }
}

#[test]
fn empty_text_encodes_to_empty() {
    for name in ["cl100k_base", "r50k_base", "p50k_base", "p50k_edit"] {
        assert_eq!(encode(name, ""), Vec::<i64>::new());
        assert_eq!(count(name, ""), 0);
    }
}

#[test]
fn count_equals_encode_length() {
    for selector in ["cl100k_base", "r50k_base", "p50k_base", "p50k_edit", "gpt-3.5-turbo"] {
        for text in ["", "a", GALAXY, SPACES, "née Großmann 🚀🚀"] {
            assert_eq!(count(selector, text) as usize, encode(selector, text).len());
        }
    }
}

#[test]
fn re_encoding_is_deterministic() {
    let mut cache = TokenizerCache::new();
    let first = cache.encode("cl100k_base", SPACES).unwrap();
    let second = cache.encode("cl100k_base", SPACES).unwrap();
    assert_eq!(first, second);
    // A fresh cache constructs its own encoder and must still agree.
    assert_eq!(encode("cl100k_base", SPACES), first);
}

#[test]
fn unknown_selector_fails() {
    let mut cache = TokenizerCache::new();
    let err = cache.encode("foo", GALAXY).unwrap_err();
    match &err {
        TokenizerError::UnknownEncodingOrModel { selector } => assert_eq!(selector, "foo"),
        other => panic!("expected an unknown-selector failure, got {:?}", other),
    }
    assert_eq!(err.message(), "'foo': unknown model or encoding");
    let err = cache.count("", GALAXY).unwrap_err();
    assert!(matches!(err, TokenizerError::UnknownEncodingOrModel { .. }));
}

#[test]
fn unsupported_model_family_fails() {
    // gpt-4o resolves to a tokenizer family outside the supported set.
    let mut cache = TokenizerCache::new();
    let err = cache.encode("gpt-4o", GALAXY).unwrap_err();
    assert!(matches!(err, TokenizerError::UnknownEncodingOrModel { .. }));
}

#[test]
fn cache_serves_several_encodings() {
    let mut cache = TokenizerCache::new();
    assert_eq!(cache.count("r50k_base", GALAXY).unwrap(), 11);
    assert_eq!(cache.count("cl100k_base", GALAXY).unwrap(), 11);
    assert_eq!(cache.count("gpt2", GALAXY).unwrap(), 11);
    assert_eq!(
        cache.encode("r50k_base", GALAXY).unwrap(),
        cache.encode("gpt2", GALAXY).unwrap()
    );
}

#[test]
fn special_token_maps_to_reserved_id() {
    assert_eq!(encode("r50k_base", "<|endoftext|>"), vec![50256]);
    assert_eq!(encode("cl100k_base", "<|endoftext|>"), vec![100257]);
}
