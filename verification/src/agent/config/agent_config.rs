//! The configuration of an agent and its model, as one value.

use vstd::prelude::*;
use crate::agent::engine::state::AgentConfig;
use crate::agent::llm::types::ModelConfig;
use crate::text::concat2;

verus! {

/// The settings of an agent and of its model.
#[derive(Debug, Clone, PartialEq, Eq)]
pub struct FullAgentConfig {
    pub agent: AgentConfig,
    pub model: ModelConfig,
}

impl Default for FullAgentConfig {
    /// The default agent with the default model.
    fn default() -> (r: Self)
        ensures
            r.agent.max_steps == 50,
            r.agent.max_execution_time == 300,
            r.agent.action_delay == 1000,
            r.model.provider@ == "openai"@,
            r.model.model_name@ == "gpt-4o"@,
    {
        Self { agent: AgentConfig::default(), model: ModelConfig::default() }
    }
}

impl FullAgentConfig {
    /// The default configuration.
    pub fn default_config() -> (r: Self)
        ensures
            r.agent.max_steps == 50,
            r.agent.max_execution_time == 300,
            r.agent.action_delay == 1000,
            r.model.provider@ == "openai"@,
            r.model.model_name@ == "gpt-4o"@,
    {
        Self::default()
    }

    /// The default agent with a model served locally.
    pub fn with_local_model(base_url: String, model_name: String) -> (r: Self)
        ensures
            r.agent.max_steps == 50,
            r.model.provider@ == "local"@,
            r.model.base_url == base_url,
            r.model.model_name == model_name,
            r.model.timeout == 60,
    {
        Self { agent: AgentConfig::default(), model: ModelConfig::local(base_url, model_name) }
    }

    /// This configuration with the key and the address of the model
    /// replaced by those given, as the environment overrides a file.
    pub fn with_overrides(self, api_key: Option<String>, base_url: Option<String>) -> (r: Self)
        ensures
            r.agent == self.agent,
            r.model.api_key == (match api_key {
                Some(k) => k,
                None => self.model.api_key,
            }),
            r.model.base_url == (match base_url {
                Some(u) => u,
                None => self.model.base_url,
            }),
            r.model.provider == self.model.provider,
            r.model.model_name == self.model.model_name,
            r.model.max_tokens == self.model.max_tokens,
            r.model.timeout == self.model.timeout,
    {
        let mut config = self;
        match api_key {
            Some(k) => {
                config.model.api_key = k;
            },
            None => {},
        }
        match base_url {
            Some(u) => {
                config.model.base_url = u;
            },
            None => {},
        }
        config
    }
}

/// A failure to load or to save a configuration.
#[derive(Debug, Clone, PartialEq, Eq)]
pub enum ConfigError {
    IoError(String),
    ParseError(String),
    SerializeError(String),
    ValidationError(String),
}

impl ConfigError {
    /// The text shown to the user for this error.
    pub open spec fn text(self) -> Seq<char> {
        match self {
            ConfigError::IoError(s) => "IO 错误: "@ + s@,
            ConfigError::ParseError(s) => "解析错误: "@ + s@,
            ConfigError::SerializeError(s) => "序列化错误: "@ + s@,
            ConfigError::ValidationError(s) => "验证错误: "@ + s@,
        }
    }

    /// The text shown to the user for this error.
    pub fn message(&self) -> (r: String)
        ensures
            r@ == self.text(),
    {
        match self {
            ConfigError::IoError(s) => concat2("IO 错误: ", s.as_str()),
            ConfigError::ParseError(s) => concat2("解析错误: ", s.as_str()),
            ConfigError::SerializeError(s) => concat2("序列化错误: ", s.as_str()),
            ConfigError::ValidationError(s) => concat2("验证错误: ", s.as_str()),
        }
    }
}

} // verus!
