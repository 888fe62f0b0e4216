//! Request shaping: the upstream provider kinds, model modes, and the
//! reasoning mode that an Anthropic request asks for.
use vstd::prelude::*;

use crate::text::{ends_with, has_suffix};

verus! {

/// The thinking budget that a reasoning variant of an Anthropic model gets.
pub const THINKING_BUDGET_TOKENS: u32 = 4096;

/// The upstream provider kinds that the relay fronts.
#[derive(Clone, Copy, Debug, PartialEq, Eq, Structural)]
pub enum LanguageModelProvider {
    Anthropic,
    OpenAi,
    Google,
}

/// The provider of a model configured by the user.
#[derive(Clone, Copy, Debug, PartialEq, Eq, Structural)]
pub enum AvailableProvider {
    Anthropic,
    OpenAi,
    Google,
}

/// How a configured model runs: plainly, or with extended reasoning.
#[derive(Clone, Copy, Debug, PartialEq, Eq, Structural)]
pub enum ModelMode {
    Default,
    Thinking {
        /// Tokens allowed for reasoning; lower than the model's output limit.
        budget_tokens: Option<u32>,
    },
}

impl Default for ModelMode {
    fn default() -> (r: ModelMode)
        ensures
            r == ModelMode::Default,
    {
        ModelMode::Default
    }
}

/// The mode of an Anthropic request.
#[derive(Clone, Copy, Debug, PartialEq, Eq, Structural)]
pub enum AnthropicModelMode {
    Default,
    Thinking { budget_tokens: Option<u32> },
}

/// The Anthropic mode that a configured mode stands for.
pub open spec fn anthropic_mode_of(mode: ModelMode) -> AnthropicModelMode {
    match mode {
        ModelMode::Default => AnthropicModelMode::Default,
        ModelMode::Thinking { budget_tokens } => AnthropicModelMode::Thinking { budget_tokens },
    }
}

impl From<ModelMode> for AnthropicModelMode {
    fn from(value: ModelMode) -> (r: AnthropicModelMode)
        ensures
            r == anthropic_mode_of(value),
    {
        match value {
            ModelMode::Default => AnthropicModelMode::Default,
            ModelMode::Thinking { budget_tokens } => AnthropicModelMode::Thinking { budget_tokens },
        }
    }
}

impl vstd::std_specs::convert::FromSpecImpl<ModelMode> for AnthropicModelMode {
    open spec fn obeys_from_spec() -> bool {
        true
    }

    open spec fn from_spec(v: ModelMode) -> AnthropicModelMode {
        anthropic_mode_of(v)
    }
}

/// The provider kind of the relay that serves a configured provider.
pub open spec fn relay_provider_of(p: AvailableProvider) -> LanguageModelProvider {
    match p {
        AvailableProvider::Anthropic => LanguageModelProvider::Anthropic,
        AvailableProvider::OpenAi => LanguageModelProvider::OpenAi,
        AvailableProvider::Google => LanguageModelProvider::Google,
    }
}

/// The provider kind of the relay that serves a configured provider.
pub fn relay_provider(p: AvailableProvider) -> (r: LanguageModelProvider)
    ensures
        r == relay_provider_of(p),
{
    match p {
        AvailableProvider::Anthropic => LanguageModelProvider::Anthropic,
        AvailableProvider::OpenAi => LanguageModelProvider::OpenAi,
        AvailableProvider::Google => LanguageModelProvider::Google,
    }
}

/// The mode of an Anthropic completion request: models whose id ends in
/// `-thinking` reason with the fixed budget, where the request allows it.
pub open spec fn request_mode_of(model_id: Seq<char>, thinking_allowed: bool) -> AnthropicModelMode {
    if thinking_allowed && has_suffix(model_id, "-thinking"@) {
        AnthropicModelMode::Thinking { budget_tokens: Some(THINKING_BUDGET_TOKENS) }
    } else {
        AnthropicModelMode::Default
    }
}

/// Chooses the mode of an Anthropic completion request.
pub fn anthropic_request_mode(model_id: &str, thinking_allowed: bool) -> (r: AnthropicModelMode)
    ensures
        r == request_mode_of(model_id@, thinking_allowed),
{
    if thinking_allowed && ends_with(model_id, "-thinking") {
        AnthropicModelMode::Thinking { budget_tokens: Some(THINKING_BUDGET_TOKENS) }
    } else {
        AnthropicModelMode::Default
    }
}

} // verus!
