//! What is sent to a chat-completions endpoint and what its answer means.
//! Sending is the caller's.

use vstd::prelude::*;
use crate::agent::actions::base::ActionEnum;
use crate::agent::actions::parse::{
    action_views, found, response_actions, thinking_in, THINKING_PATTERN,
};
use crate::agent::engine::traits::{
    opt_text, ChatMessage, MessageRole, ModelError, ModelInfo, ModelResponse,
};
use crate::agent::llm::types::{
    BlockView, ChatMessage as ApiChatMessage, ChatRequest, ChatResponse, ContentBlock,
    ContentView, ImageUrl, MessageContent, MessageRole as ApiMessageRole, ModelConfig,
};
use crate::outside::regex_captures;
use crate::text::{chars_of, concat2, decimal, push_decimal, push_text, string_of};

verus! {

/// The confidence that every response is given, in thousandths.
pub const DEFAULT_CONFIDENCE: u16 = 800;

/// The role of a message on the wire.
pub open spec fn api_role(role: MessageRole) -> ApiMessageRole {
    match role {
        MessageRole::System => ApiMessageRole::System,
        MessageRole::User => ApiMessageRole::User,
        MessageRole::Assistant => ApiMessageRole::Assistant,
    }
}

/// The index of the last user message among the first `k` messages, or -1
/// where there is none.
pub open spec fn last_user_index(messages: Seq<(MessageRole, Seq<char>)>, k: int) -> int
    decreases k,
{
    if k <= 0 || k > messages.len() {
        -1
    } else if messages[k - 1].0 == MessageRole::User {
        k - 1
    } else {
        last_user_index(messages, k - 1)
    }
}

/// The block that carries a screenshot.
pub open spec fn image_block(screenshot: Seq<char>) -> BlockView {
    BlockView {
        block_type: "image_url"@,
        text: None,
        image_url: Some("data:image/png;base64,"@ + screenshot),
    }
}

/// The block that carries a text.
pub open spec fn text_block(text: Seq<char>) -> BlockView {
    BlockView { block_type: "text"@, text: Some(text), image_url: None }
}

/// The content of a message that carries a screenshot: the image, then
/// the text.
pub open spec fn with_image(text: Seq<char>, screenshot: Seq<char>) -> ContentView {
    ContentView::Multimodal(seq![image_block(screenshot), text_block(text)])
}

/// The messages of a request for a conversation: every message as plain
/// text, but for the last user message, which carries the screenshot
/// where there is one.
pub open spec fn api_messages(
    messages: Seq<(MessageRole, Seq<char>)>,
    screenshot: Option<Seq<char>>,
) -> Seq<(ApiMessageRole, ContentView)> {
    Seq::new(
        messages.len(),
        |i: int|
            (
                api_role(messages[i].0),
                if screenshot is Some && i == last_user_index(messages, messages.len() as int) {
                    with_image(messages[i].1, screenshot->0)
                } else {
                    ContentView::Text(messages[i].1)
                },
            ),
    )
}

/// The role of a message on the wire.
pub fn to_api_role(role: MessageRole) -> (r: ApiMessageRole)
    ensures
        r == api_role(role),
{
    match role {
        MessageRole::System => ApiMessageRole::System,
        MessageRole::User => ApiMessageRole::User,
        MessageRole::Assistant => ApiMessageRole::Assistant,
    }
}

/// The content of a message that carries a screenshot.
pub fn image_content(text: &str, screenshot: &str) -> (r: MessageContent)
    ensures
        r.deep_view() == with_image(text@, screenshot@),
{
    let blocks = vec![
        ContentBlock {
            block_type: "image_url".to_owned(),
            text: None,
            image_url: Some(ImageUrl::from_base64(screenshot)),
        },
        ContentBlock { block_type: "text".to_owned(), text: Some(text.to_owned()), image_url: None },
    ];
    proof {
        assert(blocks.deep_view() =~= seq![image_block(screenshot@), text_block(text@)]);
    }
    MessageContent::Multimodal(blocks)
}

fn find_last_user(messages: &Vec<ChatMessage>) -> (r: Option<usize>)
    ensures
        match r {
            Some(i) => i == last_user_index(messages.deep_view(), messages@.len() as int),
            None => last_user_index(messages.deep_view(), messages@.len() as int) == -1,
        },
{
    let mut k: usize = messages.len();
    while k > 0
        invariant
            k <= messages@.len(),
            last_user_index(messages.deep_view(), messages@.len() as int) == last_user_index(
                messages.deep_view(),
                k as int,
            ),
        decreases k,
    {
        match messages[k - 1].role {
            MessageRole::User => {
                return Some(k - 1);
            },
            _ => {},
        }
        k -= 1;
    }
    None
}

/// The messages of a request for a conversation: only the last user
/// message carries the screenshot.
pub fn to_api_messages(messages: &Vec<ChatMessage>, screenshot: Option<&str>) -> (r: Vec<
    ApiChatMessage,
>)
    ensures
        r.deep_view() == api_messages(
            messages.deep_view(),
            match screenshot {
                Some(s) => Some(s@),
                None => None,
            },
        ),
{
    let ghost shot: Option<Seq<char>> = match screenshot {
        Some(s) => Some(s@),
        None => None,
    };
    let ghost expected = api_messages(messages.deep_view(), shot);
    let last = find_last_user(messages);
    let mut out: Vec<ApiChatMessage> = Vec::new();
    let mut i: usize = 0;
    while i < messages.len()
        invariant
            i <= messages@.len(),
            expected == api_messages(messages.deep_view(), shot),
            shot == (match screenshot {
                Some(s) => Some(s@),
                None => None,
            }),
            match last {
                Some(j) => j == last_user_index(messages.deep_view(), messages@.len() as int),
                None => last_user_index(messages.deep_view(), messages@.len() as int) == -1,
            },
            out.deep_view() == expected.take(i as int),
        decreases messages@.len() - i,
    {
        let message = &messages[i];
        let is_last_user = match last {
            Some(j) => j == i,
            None => false,
        };
        let content = match screenshot {
            Some(s) => if is_last_user {
                image_content(message.content.as_str(), s)
            } else {
                MessageContent::Text(message.content.clone())
            },
            None => MessageContent::Text(message.content.clone()),
        };
        let ghost before = out.deep_view();
        let api = ApiChatMessage { role: to_api_role(message.role), content };
        out.push(api);
        proof {
            assert(out.deep_view() =~= before.push(api.deep_view()));
            assert(api.deep_view() == expected[i as int]);
            assert(out.deep_view() =~= expected.take(i + 1));
        }
        i += 1;
    }
    proof {
        assert(expected.take(expected.len() as int) =~= expected);
    }
    out
}

/// The address of the chat-completions endpoint of a model.
pub fn endpoint(config: &ModelConfig) -> (r: String)
    ensures
        r@ == config.base_url@ + "/chat/completions"@,
{
    concat2(config.base_url.as_str(), "/chat/completions")
}

/// The value of the authorization header for a model.
pub fn authorization(config: &ModelConfig) -> (r: String)
    ensures
        r@ == "Bearer "@ + config.api_key@,
{
    concat2("Bearer ", config.api_key.as_str())
}

/// Whether an HTTP status says success.
pub open spec fn is_success(status: u16) -> bool {
    200 <= status <= 299
}

/// The text of the error for a request that the server refused.
pub open spec fn refused_text(status_line: Seq<char>, body: Seq<char>) -> Seq<char> {
    "请求失败: "@ + status_line + " - "@ + body
}

/// What the status of an answer means: nothing for a success; invalid
/// credentials for 401; rate limited for 429; else an error of the
/// interface that quotes the status line and the body.
pub fn check_status(status: u16, status_line: &str, body: &str) -> (r: Result<(), ModelError>)
    ensures
        if is_success(status) {
            r is Ok
        } else if status == 401 {
            r == Err::<(), ModelError>(ModelError::InvalidApiKey)
        } else if status == 429 {
            r == Err::<(), ModelError>(ModelError::RateLimit)
        } else {
            r matches Err(ModelError::ApiError(text)) && text@ == refused_text(
                status_line@,
                body@,
            )
        },
{
    if 200 <= status && status <= 299 {
        return Ok(());
    }
    if status == 401 {
        return Err(ModelError::InvalidApiKey);
    }
    if status == 429 {
        return Err(ModelError::RateLimit);
    }
    let mut v = chars_of("请求失败: ");
    push_text(&mut v, status_line);
    push_text(&mut v, " - ");
    push_text(&mut v, body);
    Err(ModelError::ApiError(string_of(v.as_slice())))
}

/// What a request that got no answer failed with: a timeout, or a
/// failure of the network whose text says whether the server could not be
/// reached.
pub fn network_failure(timed_out: bool, refused: bool, cause: &str) -> (r: ModelError)
    ensures
        if timed_out {
            r == ModelError::Timeout
        } else if refused {
            r matches ModelError::NetworkError(text) && text@ == "无法连接到服务器: "@ + cause@
        } else {
            r matches ModelError::NetworkError(text) && text@ == "发送请求失败: "@ + cause@
        },
{
    if timed_out {
        ModelError::Timeout
    } else if refused {
        ModelError::NetworkError(concat2("无法连接到服务器: ", cause))
    } else {
        ModelError::NetworkError(concat2("发送请求失败: ", cause))
    }
}

/// The text of the first answer of a response: empty where the answer is
/// not plain text; an error where the response holds no answer.
/// `missing` is the text of that error.
pub fn first_choice_text(response: &ChatResponse, missing: &str) -> (r: Result<String, ModelError>)
    ensures
        if response.choices@.len() == 0 {
            r matches Err(ModelError::ParseError(text)) && text@ == missing@
        } else {
            match response.choices@[0].message.content {
                MessageContent::Text(t) => r matches Ok(text) && text@ == t@,
                _ => r matches Ok(text) && text@.len() == 0,
            }
        },
{
    if response.choices.len() == 0 {
        return Err(ModelError::ParseError(missing.to_owned()));
    }
    match &response.choices[0].message.content {
        MessageContent::Text(t) => Ok(t.clone()),
        _ => Ok(String::new()),
    }
}

/// The tokens that a response accounts for, or 0 where it does not say.
pub fn tokens_of(response: &ChatResponse) -> (r: u32)
    ensures
        r == (match response.usage {
            Some(u) => u.total_tokens,
            None => 0,
        }),
{
    match response.usage {
        Some(u) => u.total_tokens,
        None => 0,
    }
}

/// What the agent is told of a model's answer: the text, the actions and
/// the reasoning parsed from it, and the tokens used.
pub fn model_response(content: String, tokens_used: u32) -> (r: ModelResponse)
    ensures
        r.content == content,
        r.tokens_used == tokens_used,
        r.confidence_permille == 800,
        action_views(r.actions@) == response_actions(content@),
        opt_text(r.reasoning) == thinking_in(found(regex_captures(THINKING_PATTERN@, content@))),
{
    let (reasoning, actions) = ActionEnum::parse_from_response(content.as_str());
    ModelResponse {
        content,
        actions,
        confidence_permille: DEFAULT_CONFIDENCE,
        reasoning,
        tokens_used,
    }
}

/// A client of an endpoint that speaks the chat-completions interface.
#[derive(Debug, Clone, PartialEq, Eq)]
pub struct OpenAIClient {
    pub config: ModelConfig,
}

impl OpenAIClient {
    /// A client of the model that `config` describes.
    pub fn new(config: ModelConfig) -> (r: Self)
        ensures
            r.config == config,
    {
        Self { config }
    }

    /// The request for a conversation, with the screenshot on its last
    /// user message and the limits of the configuration.
    pub fn build_request(&self, messages: &Vec<ChatMessage>, screenshot: Option<&str>) -> (r:
        ChatRequest)
        ensures
            r.model@ == self.config.model_name@,
            r.messages.deep_view() == api_messages(
                messages.deep_view(),
                match screenshot {
                    Some(s) => Some(s@),
                    None => None,
                },
            ),
            r.max_tokens == Some(self.config.max_tokens),
            r.temperature == Some(self.config.temperature),
            r.top_p == Some(self.config.top_p),
            r.stream == Some(false),
    {
        ChatRequest {
            model: self.config.model_name.clone(),
            messages: to_api_messages(messages, screenshot),
            max_tokens: Some(self.config.max_tokens),
            temperature: Some(self.config.temperature),
            top_p: Some(self.config.top_p),
            stream: Some(false),
        }
    }

    /// What the agent is told of an answer of the endpoint.
    pub fn read_response(&self, response: &ChatResponse) -> (r: Result<ModelResponse, ModelError>)
        ensures
            response.choices@.len() == 0 ==> (r matches Err(ModelError::ParseError(text)) && text@
                == "响应中没有选择项"@),
            response.choices@.len() > 0 ==> (r matches Ok(m) && m.tokens_used == (
            match response.usage {
                Some(u) => u.total_tokens,
                None => 0,
            }) && m.confidence_permille == 800 && action_views(m.actions@) == response_actions(
                m.content@,
            ) && opt_text(m.reasoning) == thinking_in(
                found(regex_captures(THINKING_PATTERN@, m.content@)),
            ) && m.content@ == (match response.choices@[0].message.content {
                MessageContent::Text(t) => t@,
                _ => Seq::empty(),
            })),
    {
        match first_choice_text(response, "响应中没有选择项") {
            Ok(content) => Ok(model_response(content, tokens_of(response))),
            Err(e) => Err(e),
        }
    }

    /// What the client says of its model.
    pub fn info(&self) -> (r: ModelInfo)
        ensures
            r.name@ == self.config.model_name@,
            r.provider@ == self.config.provider@,
            r.supports_vision,
            r.max_tokens == self.config.max_tokens,
            r.context_window == 128000,
    {
        ModelInfo {
            name: self.config.model_name.clone(),
            provider: self.config.provider.clone(),
            supports_vision: true,
            max_tokens: self.config.max_tokens,
            context_window: 128000,
        }
    }
}

} // verus!
