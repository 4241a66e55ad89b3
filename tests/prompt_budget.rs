use brainiac::prompt::{max_content_length, Prompt, SupportedModel};

const MODELS: [SupportedModel; 5] = [
    SupportedModel::Llama3,
    SupportedModel::Llama32,
    SupportedModel::Llama33,
    SupportedModel::Qwen2,
    SupportedModel::Qwen25,
];

#[test]
fn budgets_per_model() {
    assert_eq!(max_content_length(SupportedModel::Llama3), 8_000);
    assert_eq!(max_content_length(SupportedModel::Llama32), 128_000);
    assert_eq!(max_content_length(SupportedModel::Llama33), 128_000);
    assert_eq!(max_content_length(SupportedModel::Qwen2), 131_000);
    assert_eq!(max_content_length(SupportedModel::Qwen25), 131_000);
}

#[test]
fn lines_render_in_push_order() {
    let mut p = Prompt::new(SupportedModel::Llama3);
    p.push("first");
    p.push("second");
    assert_eq!(p.render().ok().unwrap(), "first\nsecond\n");
}

#[test]
fn rendering_twice_gives_the_same_text() {
    let mut p = Prompt::new(SupportedModel::Qwen2);
    p.push("a");
    p.push_example("x".to_string());
    let first = p.render().ok().unwrap();
    let second = p.render().ok().unwrap();
    assert_eq!(first, second);
}

#[test]
fn consecutive_examples_share_a_delimiter() {
    let mut p = Prompt::new(SupportedModel::Llama3);
    p.push("Examples:");
    p.push_example("one".to_string());
    p.push_example("two".to_string());
    assert_eq!(p.render().ok().unwrap(), "Examples:\n\n~~~\none\n~~~\ntwo\n~~~\n");
}

#[test]
fn empty_prompt_renders_empty() {
    let p = Prompt::new(SupportedModel::Llama3);
    assert_eq!(p.render().ok().unwrap(), "");
}

#[test]
fn over_budget_fails_for_every_model() {
    for model in MODELS {
        let budget = max_content_length(model);
        let mut p = Prompt::new(model);
        let body = "a".repeat(budget);
        p.push(&body);
        let err = p.render().err().unwrap();
        assert_eq!(err.overflow, 1);
    }
}

#[test]
fn exactly_at_budget_renders() {
    for model in MODELS {
        let budget = max_content_length(model);
        let mut p = Prompt::new(model);
        let body = "b".repeat(budget - 1);
        p.push(&body);
        let text = p.render().ok().unwrap();
        assert_eq!(text.chars().count(), budget);
    }
}

#[test]
fn budget_counts_utf8_bytes() {
    let mut p = Prompt::new(SupportedModel::Llama3);
    let body = "\u{e9}".repeat(4_000);
    p.push(&body);
    let err = p.render().err().unwrap();
    assert_eq!(err.overflow, 1);
    let mut q = Prompt::new(SupportedModel::Llama3);
    let body = "\u{e9}".repeat(3_999);
    q.push(&body);
    assert_eq!(q.render().ok().unwrap().len(), 7_999);
}
