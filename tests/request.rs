use cloud_completion::request::{
    anthropic_request_mode, relay_provider, AnthropicModelMode, AvailableProvider,
    LanguageModelProvider, ModelMode, THINKING_BUDGET_TOKENS,
};

#[test]
fn thinking_models_reason_when_allowed() {
    assert_eq!(
        anthropic_request_mode("model-large-thinking", true),
        AnthropicModelMode::Thinking { budget_tokens: Some(4096) }
    );
    assert_eq!(THINKING_BUDGET_TOKENS, 4096);
    assert_eq!(anthropic_request_mode("model-large-thinking", false), AnthropicModelMode::Default);
    assert_eq!(anthropic_request_mode("model-large", true), AnthropicModelMode::Default);
    assert_eq!(anthropic_request_mode("-thinking-x", true), AnthropicModelMode::Default);
}

#[test]
fn model_mode_converts() {
    assert_eq!(AnthropicModelMode::from(ModelMode::Default), AnthropicModelMode::Default);
    assert_eq!(
        AnthropicModelMode::from(ModelMode::Thinking { budget_tokens: Some(10) }),
        AnthropicModelMode::Thinking { budget_tokens: Some(10) }
    );
    assert_eq!(ModelMode::default(), ModelMode::Default);
}

#[test]
fn provider_tags() {
    assert_eq!(relay_provider(AvailableProvider::Anthropic), LanguageModelProvider::Anthropic);
    assert_eq!(relay_provider(AvailableProvider::OpenAi), LanguageModelProvider::OpenAi);
    assert_eq!(relay_provider(AvailableProvider::Google), LanguageModelProvider::Google);
}
