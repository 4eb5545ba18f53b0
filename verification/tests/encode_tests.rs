use tokenizer_bridge::Registry;
use tokenizer_bridge::encode::{EncodeParams, free_encode_results};

fn word_level_json() -> String {
    r#"{
        "version": "1.0",
        "truncation": null,
        "padding": null,
        "added_tokens": [],
        "normalizer": null,
        "pre_tokenizer": {"type": "Whitespace"},
        "post_processor": null,
        "decoder": null,
        "model": {
            "type": "WordLevel",
            "vocab": {"hello": 0, "world": 1, "a": 2, "bb": 3, "ccc": 4, "café": 5},
            "unk_token": "[UNK]"
        }
    }"#
    .to_string()
}

fn added_token_json() -> String {
    r#"{
        "version": "1.0",
        "truncation": null,
        "padding": null,
        "added_tokens": [
            {"id": 6, "content": "[EOS]", "single_word": false, "lstrip": false,
             "rstrip": false, "normalized": false, "special": true}
        ],
        "normalizer": null,
        "pre_tokenizer": {"type": "Whitespace"},
        "post_processor": null,
        "decoder": null,
        "model": {
            "type": "WordLevel",
            "vocab": {"hello": 0, "world": 1},
            "unk_token": "[UNK]"
        }
    }"#
    .to_string()
}

fn bert_processed_json() -> String {
    r#"{
        "version": "1.0",
        "truncation": null,
        "padding": null,
        "added_tokens": [],
        "normalizer": null,
        "pre_tokenizer": {"type": "Whitespace"},
        "post_processor": {"type": "BertProcessing", "sep": ["[SEP]", 10], "cls": ["[CLS]", 11]},
        "decoder": null,
        "model": {
            "type": "WordLevel",
            "vocab": {"hello": 0, "world": 1},
            "unk_token": "[UNK]"
        }
    }"#
    .to_string()
}

fn parsed_definition(json: &str) -> Result<tokenizers::tokenizer::Tokenizer, String> {
    tokenizers::tokenizer::Tokenizer::from_bytes(json.as_bytes()).map_err(|e| e.to_string())
}

fn loaded(json: &str) -> (Registry, usize) {
    let mut registry = Registry::new();
    let result = registry.from_bytes(parsed_definition(json));
    assert!(result.error.is_none());
    let handle = result.value;
    (registry, handle)
}

fn no_extras() -> EncodeParams {
    EncodeParams {
        add_special_tokens: false,
        return_tokens: false,
        return_type_ids: false,
        return_special_tokens_mask: false,
        return_attention_mask: false,
        return_offsets: false,
        with_offsets_char_mode: false,
    }
}

fn everything() -> EncodeParams {
    EncodeParams {
        add_special_tokens: false,
        return_tokens: true,
        return_type_ids: true,
        return_special_tokens_mask: true,
        return_attention_mask: true,
        return_offsets: true,
        with_offsets_char_mode: false,
    }
}

#[test]
fn encode_fills_every_requested_field() {
    let json = word_level_json();
    let (registry, handle) = loaded(&json);
    let results = registry.encode(handle, "hello world", &everything());
    assert!(results.error.is_none());
    assert_eq!(results.len, 1);
    let buffer = &results.encoded[0];
    assert_eq!(buffer.len, 2);
    assert_eq!(buffer.ids, vec![0, 1]);
    assert_eq!(buffer.tokens.as_deref(), Some(&["hello".to_string(), "world".to_string()][..]));
    assert_eq!(buffer.type_ids.as_deref(), Some(&[0u32, 0u32][..]));
    assert_eq!(buffer.special_tokens_mask.as_deref(), Some(&[0u32, 0u32][..]));
    assert_eq!(buffer.attention_mask.as_deref(), Some(&[1u32, 1u32][..]));
    let offsets = buffer.offsets.as_ref().expect("offsets were requested");
    assert_eq!(offsets.len(), 2);
    assert_eq!((offsets[0].start, offsets[0].end), (0, 5));
    assert_eq!((offsets[1].start, offsets[1].end), (6, 11));
}

#[test]
fn encode_without_options_leaves_fields_absent() {
    let json = word_level_json();
    let (registry, handle) = loaded(&json);
    let results = registry.encode(handle, "hello world", &no_extras());
    assert!(results.error.is_none());
    assert_eq!(results.len, 1);
    let buffer = &results.encoded[0];
    assert_eq!(buffer.ids, vec![0, 1]);
    assert_eq!(buffer.len, 2);
    assert!(buffer.tokens.is_none());
    assert!(buffer.type_ids.is_none());
    assert!(buffer.special_tokens_mask.is_none());
    assert!(buffer.attention_mask.is_none());
    assert!(buffer.offsets.is_none());
    free_encode_results(results);
}

#[test]
fn encode_then_decode_round_trips() {
    let json = word_level_json();
    let (registry, handle) = loaded(&json);
    let results = registry.encode(handle, "hello world", &no_extras());
    assert!(results.error.is_none());
    let ids = &results.encoded[0].ids;
    let text = registry.decode(handle, ids, false).expect("decode must succeed");
    assert_eq!(text, "hello world");
}

#[test]
fn decode_skips_special_tokens_when_asked() {
    let json = added_token_json();
    let (registry, handle) = loaded(&json);
    let results = registry.encode(handle, "hello [EOS]", &no_extras());
    assert!(results.error.is_none());
    let ids = &results.encoded[0].ids;
    assert_eq!(ids.len(), 2);
    assert_eq!(registry.decode(handle, ids, false).unwrap(), "hello [EOS]");
    assert_eq!(registry.decode(handle, ids, true).unwrap(), "hello");
}

#[test]
fn offset_modes_differ_on_multibyte_text() {
    let json = word_level_json();
    let (registry, handle) = loaded(&json);

    let byte_mode = registry.encode(handle, "café", &everything());
    assert!(byte_mode.error.is_none());
    let byte_offsets = byte_mode.encoded[0].offsets.as_ref().unwrap();
    assert_eq!((byte_offsets[0].start, byte_offsets[0].end), (0, 5));

    let mut char_options = everything();
    char_options.with_offsets_char_mode = true;
    let char_mode = registry.encode(handle, "café", &char_options);
    assert!(char_mode.error.is_none());
    let char_offsets = char_mode.encoded[0].offsets.as_ref().unwrap();
    assert_eq!((char_offsets[0].start, char_offsets[0].end), (0, 4));

    assert_ne!(byte_offsets[0].end, char_offsets[0].end);
    assert!(byte_offsets[0].end >= byte_offsets[0].start);
    assert!(char_offsets[0].end >= char_offsets[0].start);
}

#[test]
fn offsets_are_ordered_and_non_overlapping() {
    let json = word_level_json();
    let (registry, handle) = loaded(&json);
    let results = registry.encode(handle, "a bb ccc", &everything());
    assert!(results.error.is_none());
    let offsets = results.encoded[0].offsets.as_ref().unwrap();
    assert_eq!(offsets.len(), 3);
    for window in 0..offsets.len() - 1 {
        assert!(offsets[window].end <= offsets[window + 1].start);
    }
}

#[test]
fn batch_preserves_input_order() {
    let json = word_level_json();
    let (registry, handle) = loaded(&json);
    let messages = vec!["a".to_string(), "bb".to_string(), "ccc".to_string()];
    let results = registry.encode_batch(handle, 3, &messages, &no_extras());
    assert!(results.error.is_none());
    assert_eq!(results.len, 3);
    assert_eq!(results.encoded.len(), 3);
    assert_eq!(results.encoded[0].ids, vec![2]);
    assert_eq!(results.encoded[1].ids, vec![3]);
    assert_eq!(results.encoded[2].ids, vec![4]);
    for window in 0..results.encoded.len() - 1 {
        assert!(results.encoded[window].len <= results.encoded[window + 1].len);
    }
}

#[test]
fn batch_char_offset_mode_counts_characters() {
    let json = word_level_json();
    let (registry, handle) = loaded(&json);
    let mut options = everything();
    options.with_offsets_char_mode = true;
    let messages = vec!["café".to_string()];
    let results = registry.encode_batch(handle, 1, &messages, &options);
    assert!(results.error.is_none());
    let offsets = results.encoded[0].offsets.as_ref().unwrap();
    assert_eq!((offsets[0].start, offsets[0].end), (0, 4));
}

#[test]
fn batch_failure_is_atomic() {
    let json = word_level_json();
    let (registry, handle) = loaded(&json);
    let messages = vec!["a".to_string(), "bb".to_string(), "zz".to_string()];
    let results = registry.encode_batch(handle, 3, &messages, &no_extras());
    assert!(results.error.is_some());
    assert_eq!(results.len, 0);
    assert!(results.encoded.is_empty());
    free_encode_results(results);
}

#[test]
fn single_encode_failure_reports_context() {
    let json = word_level_json();
    let (registry, handle) = loaded(&json);
    let results = registry.encode(handle, "zz", &no_extras());
    let message = results.error.as_ref().expect("unknown word must fail");
    assert!(message.starts_with("encoding failed: "));
    assert_eq!(results.len, 0);
    assert!(results.encoded.is_empty());
}

#[test]
fn encode_refuses_unusable_truncation_policy() {
    let json = word_level_json();
    let (mut registry, handle) = loaded(&json);
    let params = tokenizer_bridge::configure::TruncationParams {
        direction: 0,
        strategy: 0,
        max_length: 2,
        stride: 2,
    };
    assert!(registry.set_truncation(handle, Some(&params)).is_none());
    let results = registry.encode(handle, "a bb ccc", &no_extras());
    let message = results.error.expect("the boundary must refuse this policy");
    assert_eq!(message, "truncation stride must be smaller than its max_length");
}

#[test]
fn encode_on_dead_handle_reports_error() {
    let registry = Registry::new();
    let results = registry.encode(0, "hello", &no_extras());
    assert_eq!(results.error.as_deref(), Some("tokenizer passed is null"));
    assert_eq!(results.len, 0);

    let batch = registry.encode_batch(3, 1, &vec!["hello".to_string()], &no_extras());
    assert_eq!(batch.error.as_deref(), Some("tokenizer passed is null"));
    assert_eq!(batch.len, 0);
}

#[test]
fn encode_on_released_handle_reports_error() {
    let json = word_level_json();
    let (mut registry, handle) = loaded(&json);
    registry.free_tokenizer(handle);
    let results = registry.encode(handle, "hello", &no_extras());
    assert_eq!(results.error.as_deref(), Some("invalid reference to Tokenizer"));
    assert_eq!(results.len, 0);
}

#[test]
fn encode_refuses_policy_unusable_with_special_tokens() {
    let json = bert_processed_json();
    let (mut registry, handle) = loaded(&json);
    let params = tokenizer_bridge::configure::TruncationParams {
        direction: 0,
        strategy: 0,
        max_length: 4,
        stride: 2,
    };
    assert!(registry.set_truncation(handle, Some(&params)).is_none());

    let mut with_special = no_extras();
    with_special.add_special_tokens = true;
    let refused = registry.encode(handle, "hello world", &with_special);
    assert_eq!(
        refused.error.as_deref(),
        Some("truncation stride must be smaller than its effective max_length")
    );
    assert_eq!(refused.len, 0);

    let accepted = registry.encode(handle, "hello world", &no_extras());
    assert!(accepted.error.is_none());
    assert_eq!(accepted.encoded[0].ids, vec![0, 1]);
}

#[test]
fn embedded_truncation_policy_is_refused_at_encode() {
    let json = r#"{
        "version": "1.0",
        "truncation": {"direction": "Right", "max_length": 2, "strategy": "LongestFirst", "stride": 2},
        "padding": null,
        "added_tokens": [],
        "normalizer": null,
        "pre_tokenizer": {"type": "Whitespace"},
        "post_processor": null,
        "decoder": null,
        "model": {
            "type": "WordLevel",
            "vocab": {"a": 2, "bb": 3, "ccc": 4},
            "unk_token": "[UNK]"
        }
    }"#;
    let (registry, handle) = loaded(json);
    let results = registry.encode(handle, "a bb ccc", &no_extras());
    assert_eq!(
        results.error.as_deref(),
        Some("truncation stride must be smaller than its max_length")
    );
}

#[test]
fn batch_respects_fixed_padding() {
    let json = word_level_json();
    let (mut registry, handle) = loaded(&json);
    let padding = tokenizer_bridge::configure::PaddingParams {
        strategy: 4,
        direction: 1,
        pad_to_multiple_of: 0,
        pad_id: 5,
        pad_type_id: 0,
        pad_token: Some(String::from("café")),
    };
    registry.set_padding(handle, Some(&padding));
    let messages = vec!["a".to_string(), "a bb".to_string()];
    let results = registry.encode_batch(handle, 2, &messages, &no_extras());
    assert!(results.error.is_none());
    assert_eq!(results.encoded[0].ids, vec![2, 5, 5, 5]);
    assert_eq!(results.encoded[1].ids, vec![2, 3, 5, 5]);
}
