use tokenizer_bridge::Registry;
use tokenizer_bridge::configure::{PaddingParams, TruncationParams};

fn word_level_json() -> String {
    r#"{
        "version": "1.0",
        "truncation": null,
        "padding": null,
        "added_tokens": [],
        "normalizer": null,
        "pre_tokenizer": {"type": "Whitespace"},
        "post_processor": null,
        "decoder": null,
        "model": {
            "type": "WordLevel",
            "vocab": {"hello": 0, "world": 1, "a": 2, "bb": 3, "ccc": 4, "café": 5},
            "unk_token": "[UNK]"
        }
    }"#
    .to_string()
}

fn bert_processed_json() -> String {
    r#"{
        "version": "1.0",
        "truncation": null,
        "padding": null,
        "added_tokens": [],
        "normalizer": null,
        "pre_tokenizer": {"type": "Whitespace"},
        "post_processor": {"type": "BertProcessing", "sep": ["[SEP]", 10], "cls": ["[CLS]", 11]},
        "decoder": null,
        "model": {
            "type": "WordLevel",
            "vocab": {"hello": 0, "world": 1},
            "unk_token": "[UNK]"
        }
    }"#
    .to_string()
}

fn parsed_definition(json: &str) -> Result<tokenizers::tokenizer::Tokenizer, String> {
    tokenizers::tokenizer::Tokenizer::from_bytes(json.as_bytes()).map_err(|e| e.to_string())
}

fn loaded(json: &str) -> (Registry, usize) {
    let mut registry = Registry::new();
    let result = registry.from_bytes(parsed_definition(json));
    assert!(result.error.is_none());
    let handle = result.value;
    (registry, handle)
}

fn empty_truncation_record() -> TruncationParams {
    TruncationParams { direction: 0, strategy: 0, max_length: 0, stride: 0 }
}

fn empty_padding_record() -> PaddingParams {
    PaddingParams {
        strategy: 0,
        direction: 0,
        pad_to_multiple_of: 0,
        pad_id: 0,
        pad_type_id: 0,
        pad_token: None,
    }
}

#[test]
fn truncation_set_then_get() {
    let json = word_level_json();
    let (mut registry, handle) = loaded(&json);
    let params = TruncationParams { direction: 1, strategy: 2, max_length: 128, stride: 3 };
    assert!(registry.set_truncation(handle, Some(&params)).is_none());

    let mut out = empty_truncation_record();
    assert!(registry.get_truncation(handle, &mut out));
    assert_eq!(out.direction, 1);
    assert_eq!(out.strategy, 2);
    assert_eq!(out.max_length, 128);
    assert_eq!(out.stride, 3);
    assert_eq!(registry.vocab_size(handle), 6);
}

#[test]
fn truncation_clear_reports_unconfigured() {
    let json = word_level_json();
    let (mut registry, handle) = loaded(&json);
    let params = TruncationParams { direction: 0, strategy: 0, max_length: 64, stride: 0 };
    assert!(registry.set_truncation(handle, Some(&params)).is_none());

    assert!(registry.set_truncation(handle, None).is_none());
    let mut out = empty_truncation_record();
    assert!(!registry.get_truncation(handle, &mut out));
    assert_eq!(out.max_length, 0);
}

#[test]
fn truncation_rejects_out_of_domain_direction() {
    let json = word_level_json();
    let (mut registry, handle) = loaded(&json);
    let good = TruncationParams { direction: 0, strategy: 1, max_length: 32, stride: 0 };
    assert!(registry.set_truncation(handle, Some(&good)).is_none());

    let bad = TruncationParams { direction: 99, strategy: 0, max_length: 16, stride: 0 };
    let message = registry.set_truncation(handle, Some(&bad));
    assert!(message.is_some());

    let mut out = empty_truncation_record();
    assert!(registry.get_truncation(handle, &mut out));
    assert_eq!(out.direction, 0);
    assert_eq!(out.strategy, 1);
    assert_eq!(out.max_length, 32);
    assert_eq!(out.stride, 0);
}

#[test]
fn truncation_rejects_out_of_domain_strategy() {
    let json = word_level_json();
    let (mut registry, handle) = loaded(&json);
    let bad = TruncationParams { direction: 0, strategy: 3, max_length: 16, stride: 0 };
    assert!(registry.set_truncation(handle, Some(&bad)).is_some());
    let mut out = empty_truncation_record();
    assert!(!registry.get_truncation(handle, &mut out));
}

#[test]
fn truncation_reports_engine_rejection_with_context() {
    let json = bert_processed_json();
    let (mut registry, handle) = loaded(&json);
    let params = TruncationParams { direction: 0, strategy: 0, max_length: 2, stride: 1 };
    let message = registry.set_truncation(handle, Some(&params)).expect("engine must reject");
    assert!(message.starts_with("failed tokenizer.with_truncation: "));
    let mut out = empty_truncation_record();
    assert!(!registry.get_truncation(handle, &mut out));
}

#[test]
fn truncation_max_length_below_added_tokens_is_rejected() {
    let json = bert_processed_json();
    let (mut registry, handle) = loaded(&json);
    let params = TruncationParams { direction: 0, strategy: 0, max_length: 1, stride: 0 };
    assert!(registry.set_truncation(handle, Some(&params)).is_some());
    let mut out = empty_truncation_record();
    assert!(!registry.get_truncation(handle, &mut out));
}

#[test]
fn truncation_boundary_with_added_tokens_succeeds() {
    let json = bert_processed_json();
    let (mut registry, handle) = loaded(&json);
    let params = TruncationParams { direction: 0, strategy: 0, max_length: 2, stride: 0 };
    assert!(registry.set_truncation(handle, Some(&params)).is_none());
    let mut out = empty_truncation_record();
    assert!(registry.get_truncation(handle, &mut out));
    assert_eq!(out.max_length, 2);
}

#[test]
fn truncation_on_dead_handle_reports_error() {
    let mut registry = Registry::new();
    assert_eq!(registry.set_truncation(0, None).as_deref(), Some("failed to cast tokenizer"));
    assert_eq!(registry.set_truncation(5, None).as_deref(), Some("failed to cast tokenizer"));

    let json = word_level_json();
    let result = registry.from_bytes(parsed_definition(&json));
    let handle = result.value;
    registry.free_tokenizer(handle);
    assert_eq!(
        registry.set_truncation(handle, None).as_deref(),
        Some("failed to cast tokenizer")
    );
}

#[test]
fn padding_set_then_get() {
    let json = word_level_json();
    let (mut registry, handle) = loaded(&json);
    let params = PaddingParams {
        strategy: 8,
        direction: 1,
        pad_to_multiple_of: 4,
        pad_id: 9,
        pad_type_id: 1,
        pad_token: Some(String::from("[PAD]")),
    };
    registry.set_padding(handle, Some(&params));

    let mut out = empty_padding_record();
    assert!(registry.get_padding(handle, &mut out));
    assert_eq!(out.strategy, 8);
    assert_eq!(out.direction, 1);
    assert_eq!(out.pad_to_multiple_of, 4);
    assert_eq!(out.pad_id, 9);
    assert_eq!(out.pad_type_id, 1);
    assert_eq!(out.pad_token.as_deref(), Some("[PAD]"));
    assert_eq!(registry.vocab_size(handle), 6);
}

#[test]
fn padding_clear_reports_unconfigured() {
    let json = word_level_json();
    let (mut registry, handle) = loaded(&json);
    let params = PaddingParams {
        strategy: 0,
        direction: 0,
        pad_to_multiple_of: 0,
        pad_id: 0,
        pad_type_id: 0,
        pad_token: Some(String::from("[PAD]")),
    };
    registry.set_padding(handle, Some(&params));
    registry.set_padding(handle, None);
    let mut out = empty_padding_record();
    assert!(!registry.get_padding(handle, &mut out));
    assert!(out.pad_token.is_none());
}

#[test]
fn padding_get_hands_out_fresh_token_each_call() {
    let json = word_level_json();
    let (mut registry, handle) = loaded(&json);
    let params = PaddingParams {
        strategy: 0,
        direction: 1,
        pad_to_multiple_of: 0,
        pad_id: 3,
        pad_type_id: 0,
        pad_token: Some(String::from("[PAD]")),
    };
    registry.set_padding(handle, Some(&params));

    let mut first = empty_padding_record();
    assert!(registry.get_padding(handle, &mut first));
    let taken = first.pad_token.take().expect("token must be present");
    drop(taken);

    let mut second = empty_padding_record();
    assert!(registry.get_padding(handle, &mut second));
    assert_eq!(second.pad_token.as_deref(), Some("[PAD]"));
}

#[test]
fn padding_absent_token_stands_for_empty() {
    let json = word_level_json();
    let (mut registry, handle) = loaded(&json);
    let params = PaddingParams {
        strategy: 2,
        direction: 0,
        pad_to_multiple_of: 0,
        pad_id: 0,
        pad_type_id: 0,
        pad_token: None,
    };
    registry.set_padding(handle, Some(&params));
    let mut out = empty_padding_record();
    assert!(registry.get_padding(handle, &mut out));
    assert_eq!(out.pad_token.as_deref(), Some(""));
    assert_eq!(out.strategy, 2);
}

#[test]
fn padding_on_dead_handle_is_silent_noop() {
    let mut registry = Registry::new();
    registry.set_padding(0, None);
    registry.set_padding(4, None);
    assert_eq!(registry.slots.len(), 0);
}
