use dartrs::engine::{context_window, join_tags, record_token, TextGeneration};
use dartrs::generation::{GenerationCache, GenerationConfig, GenerationError};
use tokenizers::Tokenizer;

fn tag_tokenizer() -> Tokenizer {
    let json = r#"{
        "version": "1.0",
        "truncation": null,
        "padding": null,
        "added_tokens": [],
        "normalizer": null,
        "pre_tokenizer": null,
        "post_processor": null,
        "decoder": null,
        "model": {
            "type": "WordLevel",
            "vocab": {"<|eos|>": 0, "1girl": 1, "blue": 2, "red": 3, "[UNK]": 4},
            "unk_token": "[UNK]"
        }
    }"#;
    json.parse().expect("tokenizer json should parse")
}

fn config_with(max_new_tokens: usize, seed: u64) -> GenerationConfig<f64> {
    GenerationConfig::new(
        tag_tokenizer(),
        "1girl".to_string(),
        None,
        Some(max_new_tokens),
        None,
        None,
        None,
        None,
        Some(seed),
        1.0,
    )
    .expect("config should build")
}

/// A model that plays back a fixed token script, then repeats a filler id.
struct ScriptedModel {
    script: Vec<u32>,
    pos: usize,
    clears: u32,
}

impl ScriptedModel {
    fn new(script: Vec<u32>) -> Self {
        ScriptedModel { script, pos: 0, clears: 0 }
    }
}

impl TextGeneration<f64> for ScriptedModel {
    fn get_next_token(
        &mut self,
        config: &GenerationConfig<f64>,
        cache: &mut GenerationCache,
    ) -> Result<u32, GenerationError> {
        let token = if self.pos < self.script.len() {
            self.script[self.pos]
        } else {
            4242
        };
        self.pos += 1;
        record_token(cache, config.eos_token, token);
        Ok(token)
    }

    fn clear_cache(&mut self) {
        self.clears += 1;
    }
}

/// A model whose sampling always fails.
struct FailingModel;

impl TextGeneration<f64> for FailingModel {
    fn get_next_token(
        &mut self,
        _config: &GenerationConfig<f64>,
        _cache: &mut GenerationCache,
    ) -> Result<u32, GenerationError> {
        Err(GenerationError::Sampling)
    }

    fn clear_cache(&mut self) {}
}

#[test]
fn test_context_window_first_step_is_whole_prompt() {
    let cache = GenerationCache::new(Some(vec![10, 11, 12]));
    let (context, offset) = context_window(&cache);
    assert_eq!(context, vec![10, 11, 12]);
    assert_eq!(offset, 0);
}

#[test]
fn test_context_window_later_steps_are_last_token() {
    let mut cache = GenerationCache::new(Some(vec![10, 11, 12]));
    record_token(&mut cache, 0, 20);
    let (context, offset) = context_window(&cache);
    assert_eq!(context, vec![20]);
    assert_eq!(offset, 3);
    record_token(&mut cache, 0, 21);
    let (context, offset) = context_window(&cache);
    assert_eq!(context, vec![21]);
    assert_eq!(offset, 4);
}

#[test]
fn test_record_token_sets_finished_only_on_eos() {
    let mut cache = GenerationCache::new(Some(vec![10]));
    record_token(&mut cache, 0, 5);
    assert!(!cache.finished());
    record_token(&mut cache, 0, 0);
    assert!(cache.finished());
    assert_eq!(cache.output_tokens(), vec![5, 0]);
    // The flag is monotonic: a later non-eos token does not lower it.
    record_token(&mut cache, 0, 5);
    assert!(cache.finished());
}

#[test]
fn test_advance_runs_whole_budget_without_eos() {
    let config = config_with(5, 42);
    let mut model = ScriptedModel::new(vec![1, 2, 3, 2, 1, 2, 3]);
    let mut cache = GenerationCache::new(Some(vec![1]));
    model
        .advance_until_finished(&config, &mut cache)
        .expect("scripted steps cannot fail");
    assert_eq!(cache.output_tokens(), vec![1, 2, 3, 2, 1]);
    assert!(!cache.finished());
}

#[test]
fn test_advance_stops_at_first_eos() {
    let config = config_with(5, 42);
    let mut model = ScriptedModel::new(vec![0, 1, 2]);
    let mut cache = GenerationCache::new(Some(vec![1]));
    model
        .advance_until_finished(&config, &mut cache)
        .expect("scripted steps cannot fail");
    assert_eq!(cache.output_tokens(), vec![0]);
    assert!(cache.finished());
}

#[test]
fn test_advance_zero_budget_produces_nothing() {
    let config = config_with(0, 42);
    let mut model = ScriptedModel::new(vec![1, 2]);
    let mut cache = GenerationCache::new(Some(vec![1]));
    model
        .advance_until_finished(&config, &mut cache)
        .expect("a zero budget takes no step");
    assert_eq!(cache.output_tokens(), Vec::<u32>::new());
    assert!(!cache.finished());
}

#[test]
fn test_advance_rejects_empty_prompt() {
    let config = config_with(5, 42);
    let mut model = ScriptedModel::new(vec![1]);
    let mut cache = GenerationCache::new(None);
    let result = model.advance_until_finished(&config, &mut cache);
    assert_eq!(result, Err(GenerationError::EmptyPrompt));
    assert_eq!(cache.output_tokens(), Vec::<u32>::new());
}

#[test]
fn test_advance_propagates_sampling_error() {
    let config = config_with(5, 42);
    let mut model = FailingModel;
    let mut cache = GenerationCache::new(Some(vec![1]));
    let result = model.advance_until_finished(&config, &mut cache);
    assert_eq!(result, Err(GenerationError::Sampling));
    assert_eq!(cache.output_tokens(), Vec::<u32>::new());
    assert!(!cache.finished());
}

#[test]
fn test_advance_is_deterministic_for_fixed_inputs() {
    let first = {
        let config = config_with(4, 7);
        let mut model = ScriptedModel::new(vec![2, 3, 2, 3]);
        let mut cache = GenerationCache::new(Some(vec![1]));
        model
            .advance_until_finished(&config, &mut cache)
            .expect("scripted steps cannot fail");
        cache.output_tokens()
    };
    let second = {
        let config = config_with(4, 7);
        let mut model = ScriptedModel::new(vec![2, 3, 2, 3]);
        let mut cache = GenerationCache::new(Some(vec![1]));
        model
            .advance_until_finished(&config, &mut cache)
            .expect("scripted steps cannot fail");
        cache.output_tokens()
    };
    assert_eq!(first, second);
}

#[test]
fn test_generate_tokens_decodes_each_token() {
    let config = config_with(10, 42);
    let mut model = ScriptedModel::new(vec![2, 3, 0]);
    let tags = model
        .generate_tokens(&config)
        .expect("scripted steps cannot fail");
    assert_eq!(tags, vec!["blue".to_string(), "red".to_string(), "<|eos|>".to_string()]);
    assert_eq!(model.clears, 1);
}

#[test]
fn test_generate_filters_structural_tokens() {
    let config = config_with(10, 42);
    let mut model = ScriptedModel::new(vec![2, 3, 0]);
    let text = model.generate(&config).expect("scripted steps cannot fail");
    assert_eq!(text, "blue, red");
}

#[test]
fn test_generate_only_eos_yields_empty_text() {
    let config = config_with(10, 42);
    let mut model = ScriptedModel::new(vec![0]);
    let text = model.generate(&config).expect("scripted steps cannot fail");
    assert_eq!(text, "");
}

#[test]
fn test_decode_through_tokenizer() {
    let config = config_with(10, 42);
    let model = ScriptedModel::new(vec![]);
    let text = model.decode(&config, &[1, 2]).expect("ids are in the vocabulary");
    assert_eq!(text, "1girl blue");
}

fn unkless_tokenizer() -> Tokenizer {
    let json = r#"{
        "version": "1.0",
        "truncation": null,
        "padding": null,
        "added_tokens": [],
        "normalizer": null,
        "pre_tokenizer": null,
        "post_processor": null,
        "decoder": null,
        "model": {
            "type": "WordLevel",
            "vocab": {"<|eos|>": 0},
            "unk_token": "[UNK]"
        }
    }"#;
    json.parse().expect("tokenizer json should parse")
}

#[test]
fn test_generate_tokens_encode_failure_is_backend_error() {
    // the vocabulary cannot encode the prompt (no unknown-token fallback),
    // so the tokenizer collaborator fails before any step runs
    let config = GenerationConfig::new(
        unkless_tokenizer(),
        "1girl".to_string(),
        None,
        Some(5),
        None,
        None,
        None,
        None,
        Some(1),
        1.0,
    )
    .expect("config should build");
    let mut model = ScriptedModel::new(vec![0]);
    assert_eq!(model.generate_tokens(&config), Err(GenerationError::Backend));
}

#[test]
fn test_join_tags_filters_and_joins() {
    let tags = vec![
        "1girl".to_string(),
        "<|eos|>".to_string(),
        "blue sky".to_string(),
        "<|input_end|>".to_string(),
        "smile".to_string(),
    ];
    assert_eq!(join_tags(&tags), "1girl, blue sky, smile");
}

#[test]
fn test_join_tags_all_structural_is_empty() {
    let tags = vec!["<|bos|>".to_string(), "<|eos|>".to_string()];
    assert_eq!(join_tags(&tags), "");
    assert_eq!(join_tags(&Vec::new()), "");
}

#[test]
fn test_join_tags_keeps_family_tags() {
    // Only the reserved structural literals are filtered by the batch path;
    // family tags such as a length tag pass through, as in the step contract.
    let tags = vec!["<|length:long|>".to_string(), "1girl".to_string()];
    assert_eq!(join_tags(&tags), "<|length:long|>, 1girl");
}
