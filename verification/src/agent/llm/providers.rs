//! Which client serves which provider.

use vstd::prelude::*;
use crate::agent::engine::traits::ModelError;
use crate::agent::llm::autoglm_client::AutoGLMClient;
use crate::agent::llm::client::OpenAIClient;
use crate::agent::llm::types::ModelConfig;
use crate::text::{concat2, same_text};

verus! {

/// A client of one of the two kinds.
#[derive(Debug, Clone, PartialEq, Eq)]
pub enum ModelClientKind {
    OpenAI(OpenAIClient),
    AutoGLM(AutoGLMClient),
}

/// Whether the chat-completions client serves a provider.
pub open spec fn is_openai_provider(provider: Seq<char>) -> bool {
    provider == "openai"@ || provider == "azure"@
}

/// Whether the phone-model client serves a provider.
pub open spec fn is_autoglm_provider(provider: Seq<char>) -> bool {
    provider == "local"@ || provider == "autoglm"@
}

/// The client for a configuration: the chat-completions client for the
/// providers `openai` and `azure`, the phone-model client for `local` and
/// `autoglm`, and an error for any other provider.
pub fn create_model_client(config: &ModelConfig) -> (r: Result<ModelClientKind, ModelError>)
    ensures
        match r {
            Ok(ModelClientKind::OpenAI(c)) => is_openai_provider(config.provider@) && c.config
                == *config,
            Ok(ModelClientKind::AutoGLM(c)) => !is_openai_provider(config.provider@)
                && is_autoglm_provider(config.provider@) && c.config == *config,
            Err(e) => !is_openai_provider(config.provider@) && !is_autoglm_provider(
                config.provider@,
            ) && (e matches ModelError::ApiError(text) && text@ == "不支持的模型提供商: "@
                + config.provider@),
        },
{
    let provider = config.provider.as_str();
    if same_text(provider, "openai") || same_text(provider, "azure") {
        Ok(ModelClientKind::OpenAI(OpenAIClient::new(config.copy())))
    } else if same_text(provider, "local") || same_text(provider, "autoglm") {
        Ok(ModelClientKind::AutoGLM(AutoGLMClient::new(config.copy())))
    } else {
        Err(ModelError::ApiError(concat2("不支持的模型提供商: ", provider)))
    }
}

/// The phone-model client for a model served locally.
pub fn create_autoglm_client(base_url: String, model_name: String) -> (r: AutoGLMClient)
    ensures
        r.config.provider@ == "local"@,
        r.config.base_url == base_url,
        r.config.model_name == model_name,
{
    AutoGLMClient::new(ModelConfig::local(base_url, model_name))
}

} // verus!
