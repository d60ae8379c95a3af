use ai_tools_lib_rust::llms::token_counter::TokenCounts;
use ai_tools_lib_rust::TokenCounter;

#[test]
fn token_counter_tracks_counts() {
    let mut counter = TokenCounter::new();
    counter.add_counts("test-model", 10, 5, 2);

    let counts = counter.get_counts();
    let model_counts = counts
        .iter()
        .find(|(m, _)| m == "test-model")
        .map(|(_, c)| *c)
        .expect("model missing");
    assert_eq!(model_counts.prompt_tokens, 10);
    assert_eq!(model_counts.output_tokens, 5);
    assert_eq!(model_counts.reasoning_tokens, 2);
}

#[test]
fn token_counts_add_up_per_model() {
    let mut counter = TokenCounter::new();
    counter.add_counts("a", 1, 2, 3);
    counter.add_counts("b", 100, 0, 0);
    counter.add_counts("a", 10, 20, 30);
    let a = counter.get("a").expect("a");
    assert_eq!((a.prompt_tokens, a.output_tokens, a.reasoning_tokens), (11, 22, 33));
    let b = counter.get("b").expect("b");
    assert_eq!((b.prompt_tokens, b.output_tokens, b.reasoning_tokens), (100, 0, 0));
    assert!(counter.get("c").is_none());
    assert_eq!(counter.get_counts().len(), 2);
}

#[test]
fn token_counts_display() {
    let c = TokenCounts { prompt_tokens: 1, output_tokens: 20, reasoning_tokens: 300 };
    assert_eq!(c.to_display_string(), "Prompt: 1, Output: 20, Reasoning: 300");
    let d = TokenCounts::default();
    assert_eq!(d.to_display_string(), "Prompt: 0, Output: 0, Reasoning: 0");
}

#[test]
fn token_counter_display() {
    let mut counter = TokenCounter::new();
    assert_eq!(counter.to_display_string(), "Token Counts: (No tokens recorded)");
    counter.add_counts("m", 1, 2, 3);
    assert_eq!(counter.to_display_string(), "Token Counts:\n  m: Prompt: 1, Output: 2, Reasoning: 3\n");
}
