//! The messages of the chat-completions interface and the configuration
//! of a model. Temperatures and probabilities are in thousandths.

use vstd::prelude::*;
use crate::agent::engine::traits::opt_text;
use crate::text::{chars_of, concat2, push_text, string_of};

verus! {

/// Who wrote a message.
#[derive(Debug, Clone, Copy, PartialEq, Eq)]
pub enum MessageRole {
    System,
    User,
    Assistant,
}

/// The address of an image.
#[derive(Debug, Clone, PartialEq, Eq)]
pub struct ImageUrl {
    pub url: String,
}

impl ImageUrl {
    /// The data address of a PNG image given in base64.
    pub fn from_base64(base64_data: &str) -> (r: Self)
        ensures
            r.url@ == "data:image/png;base64,"@ + base64_data@,
    {
        Self { url: concat2("data:image/png;base64,", base64_data) }
    }
}

/// One part of a message that holds more than text.
#[derive(Debug, Clone, PartialEq, Eq)]
pub struct ContentBlock {
    pub block_type: String,
    pub text: Option<String>,
    pub image_url: Option<ImageUrl>,
}

/// The mathematical value of a [`ContentBlock`]: its kind, its text and
/// the address of its image.
pub struct BlockView {
    pub block_type: Seq<char>,
    pub text: Option<Seq<char>>,
    pub image_url: Option<Seq<char>>,
}

impl DeepView for ContentBlock {
    type V = BlockView;

    open spec fn deep_view(&self) -> BlockView {
        BlockView {
            block_type: self.block_type@,
            text: opt_text(self.text),
            image_url: match self.image_url {
                Some(u) => Some(u.url@),
                None => None,
            },
        }
    }
}

/// The content of a message: text alone, or blocks of text and images.
#[derive(Debug, Clone, PartialEq, Eq)]
pub enum MessageContent {
    Text(String),
    Multimodal(Vec<ContentBlock>),
}

/// The mathematical value of a [`MessageContent`].
pub enum ContentView {
    Text(Seq<char>),
    Multimodal(Seq<BlockView>),
}

impl DeepView for MessageContent {
    type V = ContentView;

    open spec fn deep_view(&self) -> ContentView {
        match *self {
            MessageContent::Text(t) => ContentView::Text(t@),
            MessageContent::Multimodal(blocks) => ContentView::Multimodal(blocks.deep_view()),
        }
    }
}

/// One message of a request or a response.
#[derive(Debug, Clone, PartialEq, Eq)]
pub struct ChatMessage {
    pub role: MessageRole,
    pub content: MessageContent,
}

impl DeepView for ChatMessage {
    type V = (MessageRole, ContentView);

    open spec fn deep_view(&self) -> (MessageRole, ContentView) {
        (self.role, self.content.deep_view())
    }
}

/// A request to the model. `temperature` and `top_p` are in thousandths.
#[derive(Debug, Clone, PartialEq, Eq)]
pub struct ChatRequest {
    pub model: String,
    pub messages: Vec<ChatMessage>,
    pub max_tokens: Option<u32>,
    pub temperature: Option<u32>,
    pub top_p: Option<u32>,
    pub stream: Option<bool>,
}

/// The accounting of tokens of a response.
#[derive(Debug, Clone, Copy, PartialEq, Eq)]
pub struct Usage {
    pub prompt_tokens: u32,
    pub completion_tokens: u32,
    pub total_tokens: u32,
}

/// One answer of a response.
#[derive(Debug, Clone, PartialEq, Eq)]
pub struct Choice {
    pub index: usize,
    pub message: ChatMessage,
    pub finish_reason: Option<String>,
}

/// A response of the model.
#[derive(Debug, Clone, PartialEq, Eq)]
pub struct ChatResponse {
    pub id: Option<String>,
    pub object: Option<String>,
    pub created: Option<u64>,
    pub model: Option<String>,
    pub choices: Vec<Choice>,
    pub usage: Option<Usage>,
}

/// The configuration of a model. `temperature` and `top_p` are in
/// thousandths; `timeout` is in seconds.
#[derive(Debug, Clone, PartialEq, Eq)]
pub struct ModelConfig {
    /// The provider: `openai`, `azure`, `local` or `autoglm`.
    pub provider: String,
    pub model_name: String,
    pub api_key: String,
    pub base_url: String,
    pub max_tokens: u32,
    pub temperature: u32,
    pub top_p: u32,
    pub timeout: u64,
    /// The model that corrects malformed output, if any.
    pub auxiliary_model_name: Option<String>,
    /// The model that plans in three-stage mode, if any.
    pub planning_model_name: Option<String>,
    /// The model that executes in three-stage mode, if any.
    pub execution_model_name: Option<String>,
    pub enable_three_stage: bool,
}

impl Default for ModelConfig {
    /// The hosted `gpt-4o` without a key.
    fn default() -> (r: Self)
        ensures
            r.provider@ == "openai"@,
            r.model_name@ == "gpt-4o"@,
            r.api_key@ == ""@,
            r.base_url@ == "https://api.openai.com/v1"@,
            r.max_tokens == 4096,
            r.temperature == 0,
            r.top_p == 850,
            r.timeout == 30,
            r.auxiliary_model_name is None,
            r.planning_model_name is None,
            r.execution_model_name is None,
            !r.enable_three_stage,
    {
        Self {
            provider: "openai".to_owned(),
            model_name: "gpt-4o".to_owned(),
            api_key: "".to_owned(),
            base_url: "https://api.openai.com/v1".to_owned(),
            max_tokens: 4096,
            temperature: 0,
            top_p: 850,
            timeout: 30,
            auxiliary_model_name: None,
            planning_model_name: None,
            execution_model_name: None,
            enable_three_stage: false,
        }
    }
}

impl ModelConfig {
    /// The configuration of a model served locally.
    pub fn local(base_url: String, model_name: String) -> (r: Self)
        ensures
            r.provider@ == "local"@,
            r.model_name == model_name,
            r.api_key@ == "EMPTY"@,
            r.base_url == base_url,
            r.max_tokens == 4096,
            r.temperature == 0,
            r.top_p == 850,
            r.timeout == 60,
            r.auxiliary_model_name is None,
            r.planning_model_name is None,
            r.execution_model_name is None,
            !r.enable_three_stage,
    {
        Self {
            provider: "local".to_owned(),
            model_name,
            api_key: "EMPTY".to_owned(),
            base_url,
            max_tokens: 4096,
            temperature: 0,
            top_p: 850,
            timeout: 60,
            auxiliary_model_name: None,
            planning_model_name: None,
            execution_model_name: None,
            enable_three_stage: false,
        }
    }

    /// The configuration of a deployment on Azure.
    pub fn azure(api_key: String, endpoint: String, deployment: String, api_version: String) -> (r:
        Self)
        ensures
            r.provider@ == "azure"@,
            r.model_name == deployment,
            r.api_key == api_key,
            r.base_url@ == endpoint@ + "/openai/deployments/"@ + api_version@,
            r.max_tokens == 4096,
            r.temperature == 0,
            r.top_p == 850,
            r.timeout == 30,
            r.auxiliary_model_name is None,
            r.planning_model_name is None,
            r.execution_model_name is None,
            !r.enable_three_stage,
    {
        let mut v = chars_of(endpoint.as_str());
        push_text(&mut v, "/openai/deployments/");
        push_text(&mut v, api_version.as_str());
        Self {
            provider: "azure".to_owned(),
            model_name: deployment,
            api_key,
            base_url: string_of(v.as_slice()),
            max_tokens: 4096,
            temperature: 0,
            top_p: 850,
            timeout: 30,
            auxiliary_model_name: None,
            planning_model_name: None,
            execution_model_name: None,
            enable_three_stage: false,
        }
    }

    /// A copy of this configuration.
    pub fn copy(&self) -> (r: Self)
        ensures
            r == *self,
    {
        Self {
            provider: self.provider.clone(),
            model_name: self.model_name.clone(),
            api_key: self.api_key.clone(),
            base_url: self.base_url.clone(),
            max_tokens: self.max_tokens,
            temperature: self.temperature,
            top_p: self.top_p,
            timeout: self.timeout,
            auxiliary_model_name: crate::agent::engine::traits::copy_opt_text(
                &self.auxiliary_model_name,
            ),
            planning_model_name: crate::agent::engine::traits::copy_opt_text(
                &self.planning_model_name,
            ),
            execution_model_name: crate::agent::engine::traits::copy_opt_text(
                &self.execution_model_name,
            ),
            enable_three_stage: self.enable_three_stage,
        }
    }
}

} // verus!
