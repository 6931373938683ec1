//! The client of the phone model: one request per step, or the three
//! stages plan, execute and correct.
//!
//! In three-stage mode a planning model reads the conversation and says in
//! a sentence what to do next; the vision model reads that sentence and
//! the screenshot and writes the operation; and where no operation can be
//! parsed from what it wrote, the auxiliary model is asked to put it in
//! form. The functions here build the requests and decide which stage
//! comes next; sending is the caller's.

use vstd::prelude::*;
use crate::agent::actions::parse::response_actions;
use crate::agent::engine::traits::{
    opt_text, ChatMessage, MessageRole, ModelError, ModelInfo, ModelResponse,
};
use crate::agent::llm::client::{
    api_messages, first_choice_text, image_content, model_response, to_api_messages, tokens_of,
    with_image,
};
use crate::agent::llm::prompts::{
    execution_prompt_text, execution_system_prompt_on, get_auxiliary_system_prompt,
    AUXILIARY_SYSTEM_PROMPT,
};
use crate::agent::llm::types::{
    ChatMessage as ApiChatMessage, ChatRequest, ChatResponse, ContentView, MessageContent,
    MessageRole as ApiMessageRole, ModelConfig,
};
use crate::text::concat2;

verus! {

/// The stage of the pipeline that a request belongs to.
#[derive(Debug, Clone, Copy, PartialEq, Eq)]
pub enum Stage {
    /// The planning model says what to do next. No image is sent.
    Plan,
    /// The vision model writes the operation for the plan and the
    /// screenshot.
    Execute,
    /// The auxiliary model puts malformed output in form.
    Correct,
}

/// What comes after a stage.
#[derive(Debug, Clone, Copy, PartialEq, Eq)]
pub enum NextStage {
    /// Send the request of this stage.
    Run(Stage),
    /// The pipeline is over: the output of the last stage is the answer.
    Finish,
}

/// The largest number of tokens of a plan.
pub const PLAN_MAX_TOKENS: u32 = 1024;

/// The largest number of tokens of an operation and of a correction.
pub const EXECUTE_MAX_TOKENS: u32 = 2048;

/// The temperature of the planning stage, in thousandths.
pub const PLAN_TEMPERATURE: u32 = 300;

/// The temperature of the execution stage, in thousandths.
pub const EXECUTE_TEMPERATURE: u32 = 100;

/// What comes after a stage of the three-stage pipeline whose output is
/// `output`: the execution after the plan; after the execution, the
/// correction where no action can be parsed from the output, else the
/// end; the end after the correction.
pub open spec fn after_stage(stage: Stage, output: Seq<char>) -> NextStage {
    match stage {
        Stage::Plan => NextStage::Run(Stage::Execute),
        Stage::Execute => if response_actions(output).len() == 0 {
            NextStage::Run(Stage::Correct)
        } else {
            NextStage::Finish
        },
        Stage::Correct => NextStage::Finish,
    }
}

/// The user message of the execution stage for a plan.
pub open spec fn execution_user_text(plan: Seq<char>) -> Seq<char> {
    plan + "\n\n请根据当前截图和上述动作描述生成具体的执行参数。"@
}

/// The user message of the correction stage for an output.
pub open spec fn correction_user_text(output: Seq<char>) -> Seq<char> {
    "请修正以下输出，使其符合格式要求：\n\n"@ + output
}

/// The client of the phone model.
#[derive(Debug, Clone, PartialEq, Eq)]
pub struct AutoGLMClient {
    pub config: ModelConfig,
}

impl AutoGLMClient {
    /// The model that plans: the planning model, else the auxiliary
    /// model.
    pub open spec fn planning_model_of(self) -> Option<Seq<char>> {
        match self.config.planning_model_name {
            Some(name) => Some(name@),
            None => opt_text(self.config.auxiliary_model_name),
        }
    }

    /// The model that executes: the execution model, else the main model.
    pub open spec fn execution_model_of(self) -> Seq<char> {
        match self.config.execution_model_name {
            Some(name) => name@,
            None => self.config.model_name@,
        }
    }

    /// A client of the model that `config` describes.
    pub fn new(config: ModelConfig) -> (r: Self)
        ensures
            r.config == config,
    {
        Self { config }
    }

    /// Whether the client works in three stages.
    pub fn supports_three_stage(&self) -> (b: bool)
        ensures
            b == self.config.enable_three_stage,
    {
        self.config.enable_three_stage
    }

    /// The actions and the reasoning of a response.
    pub fn parse_response(&self, content: &str) -> (r: (
        Option<String>,
        Vec<crate::agent::actions::base::ActionEnum>,
    ))
        ensures
            opt_text(r.0) == crate::agent::actions::parse::thinking_in(
                crate::agent::actions::parse::found(
                    crate::outside::regex_captures(
                        crate::agent::actions::parse::THINKING_PATTERN@,
                        content@,
                    ),
                ),
            ),
            crate::agent::actions::parse::action_views(r.1@) == response_actions(content@),
    {
        crate::agent::actions::base::ActionEnum::parse_from_response(content)
    }

    /// The first stage of a query: the plan in three-stage mode, which
    /// needs a screenshot; else the one request of the single stage.
    pub fn first_stage(&self, has_screenshot: bool) -> (r: Result<Stage, ModelError>)
        ensures
            if !self.config.enable_three_stage {
                r == Ok::<Stage, ModelError>(Stage::Execute)
            } else if has_screenshot {
                r == Ok::<Stage, ModelError>(Stage::Plan)
            } else {
                r matches Err(ModelError::ParseError(text)) && text@ == "三阶段模式需要截图"@
            },
    {
        if !self.config.enable_three_stage {
            Ok(Stage::Execute)
        } else if has_screenshot {
            Ok(Stage::Plan)
        } else {
            Err(ModelError::ParseError("三阶段模式需要截图".to_owned()))
        }
    }

    /// What comes after a stage of the three-stage pipeline whose output
    /// is `output`.
    pub fn next_stage(&self, stage: Stage, output: &str) -> (r: NextStage)
        ensures
            r == after_stage(stage, output@),
    {
        match stage {
            Stage::Plan => NextStage::Run(Stage::Execute),
            Stage::Execute => {
                let (_, actions) = self.parse_response(output);
                if actions.len() == 0 {
                    proof {
                        assert(crate::agent::actions::parse::action_views(actions@).len() == 0);
                    }
                    NextStage::Run(Stage::Correct)
                } else {
                    proof {
                        assert(crate::agent::actions::parse::action_views(actions@).len() > 0);
                    }
                    NextStage::Finish
                }
            },
            Stage::Correct => NextStage::Finish,
        }
    }

    /// Whether the single request of a step is followed by a correction:
    /// where no action can be parsed from the answer and an auxiliary
    /// model is configured.
    pub fn needs_correction(&self, output: &str) -> (b: bool)
        ensures
            b == (response_actions(output@).len() == 0 && self.config.auxiliary_model_name
                is Some),
    {
        if self.config.auxiliary_model_name.is_none() {
            return false;
        }
        let (_, actions) = self.parse_response(output);
        proof {
            assert(crate::agent::actions::parse::action_views(actions@).len() == actions@.len());
        }
        actions.len() == 0
    }

    /// The request of the single stage: the conversation with the
    /// screenshot on its last user message.
    pub fn build_request(&self, messages: &Vec<ChatMessage>, screenshot: Option<&str>) -> (r:
        ChatRequest)
        ensures
            r.model@ == self.config.model_name@,
            r.messages.deep_view() == api_messages(
                messages.deep_view(),
                match screenshot {
                    Some(s) => Some(s@),
                    None => None,
                },
            ),
            r.max_tokens == Some(self.config.max_tokens),
            r.temperature == Some(self.config.temperature),
            r.top_p == Some(self.config.top_p),
            r.stream == Some(false),
    {
        ChatRequest {
            model: self.config.model_name.clone(),
            messages: to_api_messages(messages, screenshot),
            max_tokens: Some(self.config.max_tokens),
            temperature: Some(self.config.temperature),
            top_p: Some(self.config.top_p),
            stream: Some(false),
        }
    }

    /// The request of the planning stage: the whole conversation as
    /// plain text, without any image, to the planning model. An error
    /// where no model is configured that could plan.
    pub fn plan_request(&self, messages: &Vec<ChatMessage>) -> (r: Result<ChatRequest, ModelError>)
        ensures
            match r {
                Ok(request) => {
                    &&& self.planning_model_of() == Some(request.model@)
                    &&& request.messages.deep_view() == api_messages(messages.deep_view(), None)
                    &&& request.max_tokens == Some(1024u32)
                    &&& request.temperature == Some(300u32)
                    &&& request.top_p == Some(100u32)
                    &&& request.stream == Some(false)
                },
                Err(e) => self.planning_model_of() is None && (e matches ModelError::ApiError(
                    text,
                ) && text@ == "未配置规划模型"@),
            },
    {
        let model = match &self.config.planning_model_name {
            Some(name) => name.clone(),
            None => match &self.config.auxiliary_model_name {
                Some(name) => name.clone(),
                None => {
                    return Err(ModelError::ApiError("未配置规划模型".to_owned()));
                },
            },
        };
        Ok(
            ChatRequest {
                model,
                messages: to_api_messages(messages, None),
                max_tokens: Some(PLAN_MAX_TOKENS),
                temperature: Some(PLAN_TEMPERATURE),
                top_p: Some(100),
                stream: Some(false),
            },
        )
    }

    /// The request of the execution stage: the execution prompt for the
    /// screen, and the plan with the screenshot, to the execution model.
    /// The conversation is not sent. `date` is the date written in the
    /// prompt.
    pub fn execute_request(
        &self,
        plan: &str,
        screenshot: &str,
        screen_width: u32,
        screen_height: u32,
        date: &str,
    ) -> (r: ChatRequest)
        ensures
            r.model@ == self.execution_model_of(),
            r.messages.deep_view() == seq![
                (
                    ApiMessageRole::System,
                    ContentView::Text(execution_prompt_text(screen_width, screen_height, date@)),
                ),
                (ApiMessageRole::User, with_image(execution_user_text(plan@), screenshot@)),
            ],
            r.max_tokens == Some(2048u32),
            r.temperature == Some(100u32),
            r.top_p == Some(100u32),
            r.stream == Some(false),
    {
        let model = match &self.config.execution_model_name {
            Some(name) => name.clone(),
            None => self.config.model_name.clone(),
        };
        let user_text = concat2(plan, "\n\n请根据当前截图和上述动作描述生成具体的执行参数。");
        let messages = vec![
            ApiChatMessage {
                role: ApiMessageRole::System,
                content: MessageContent::Text(
                    execution_system_prompt_on(screen_width, screen_height, date),
                ),
            },
            ApiChatMessage {
                role: ApiMessageRole::User,
                content: image_content(user_text.as_str(), screenshot),
            },
        ];
        proof {
            assert(messages.deep_view() =~= seq![
                (
                    ApiMessageRole::System,
                    ContentView::Text(execution_prompt_text(screen_width, screen_height, date@)),
                ),
                (ApiMessageRole::User, with_image(execution_user_text(plan@), screenshot@)),
            ]);
        }
        ChatRequest {
            model,
            messages,
            max_tokens: Some(EXECUTE_MAX_TOKENS),
            temperature: Some(EXECUTE_TEMPERATURE),
            top_p: Some(100),
            stream: Some(false),
        }
    }

    /// The request of the correction stage: the correction prompt and the
    /// output to correct, to the auxiliary model. None where no auxiliary
    /// model is configured: the output then stands as it is.
    pub fn auxiliary_request(&self, output: &str) -> (r: Option<ChatRequest>)
        ensures
            match r {
                Some(request) => {
                    &&& opt_text(self.config.auxiliary_model_name) == Some(request.model@)
                    &&& request.messages.deep_view() == seq![
                        (ApiMessageRole::System, ContentView::Text(AUXILIARY_SYSTEM_PROMPT@)),
                        (ApiMessageRole::User, ContentView::Text(correction_user_text(output@))),
                    ]
                    &&& request.max_tokens == Some(2048u32)
                    &&& request.temperature == Some(0u32)
                    &&& request.top_p == Some(850u32)
                    &&& request.stream == Some(false)
                },
                None => self.config.auxiliary_model_name is None,
            },
    {
        let model = match &self.config.auxiliary_model_name {
            Some(name) => name.clone(),
            None => {
                return None;
            },
        };
        let messages = vec![
            ApiChatMessage {
                role: ApiMessageRole::System,
                content: MessageContent::Text(get_auxiliary_system_prompt()),
            },
            ApiChatMessage {
                role: ApiMessageRole::User,
                content: MessageContent::Text(concat2("请修正以下输出，使其符合格式要求：\n\n", output)),
            },
        ];
        proof {
            assert(messages.deep_view() =~= seq![
                (ApiMessageRole::System, ContentView::Text(AUXILIARY_SYSTEM_PROMPT@)),
                (ApiMessageRole::User, ContentView::Text(correction_user_text(output@))),
            ]);
        }
        Some(
            ChatRequest {
                model,
                messages,
                max_tokens: Some(EXECUTE_MAX_TOKENS),
                temperature: Some(0),
                top_p: Some(850),
                stream: Some(false),
            },
        )
    }

    /// The text of the answer of a stage. The answer of the planning and
    /// of the execution stage must be plain text; what is no plain text in
    /// the answer of the correction stage leaves the output as it was.
    pub fn stage_output(&self, stage: Stage, response: &ChatResponse, output_so_far: &str) -> (r:
        Result<String, ModelError>)
        ensures
            response.choices@.len() == 0 ==> (r matches Err(ModelError::ParseError(text)) && text@
                == (match stage {
                Stage::Plan => "规划模型响应中没有选择项"@,
                Stage::Execute => "执行模型响应中没有选择项"@,
                Stage::Correct => "辅助模型响应中没有选择项"@,
            })),
            response.choices@.len() > 0 ==> match response.choices@[0].message.content {
                MessageContent::Text(t) => r matches Ok(text) && text@ == t@,
                _ => match stage {
                    Stage::Plan => r matches Err(ModelError::ParseError(text)) && text@
                        == "规划模型输出格式错误"@,
                    Stage::Execute => r matches Err(ModelError::ParseError(text)) && text@
                        == "执行模型输出格式错误"@,
                    Stage::Correct => r matches Ok(text) && text@ == output_so_far@,
                },
            },
    {
        if response.choices.len() == 0 {
            return Err(
                ModelError::ParseError(
                    match stage {
                        Stage::Plan => "规划模型响应中没有选择项".to_owned(),
                        Stage::Execute => "执行模型响应中没有选择项".to_owned(),
                        Stage::Correct => "辅助模型响应中没有选择项".to_owned(),
                    },
                ),
            );
        }
        match &response.choices[0].message.content {
            MessageContent::Text(t) => Ok(t.clone()),
            _ => match stage {
                Stage::Plan => Err(ModelError::ParseError("规划模型输出格式错误".to_owned())),
                Stage::Execute => Err(ModelError::ParseError("执行模型输出格式错误".to_owned())),
                Stage::Correct => Ok(output_so_far.to_owned()),
            },
        }
    }

    /// The text of the answer where the model is asked once, without
    /// stages: the text of the first answer, empty where that is no plain
    /// text; an error where the response holds no answer.
    pub fn single_stage_output(&self, response: &ChatResponse) -> (r: Result<String, ModelError>)
        ensures
            response.choices@.len() == 0 ==> (r matches Err(ModelError::ParseError(text)) && text@
                == "响应中没有选择项"@),
            response.choices@.len() > 0 ==> (r matches Ok(text) && text@ == (
            match response.choices@[0].message.content {
                MessageContent::Text(t) => t@,
                _ => Seq::<char>::empty(),
            })),
    {
        let r = first_choice_text(response, "响应中没有选择项");
        proof {
            if r is Ok {
                assert(r->Ok_0@ =~= (match response.choices@[0].message.content {
                    MessageContent::Text(t) => t@,
                    _ => Seq::<char>::empty(),
                }));
            }
        }
        r
    }

    /// The answer after the correction where the model is asked once,
    /// without stages: the corrected text, or the answer as it was where
    /// the correction failed.
    pub fn after_correction(&self, answer: String, correction: Result<String, ModelError>) -> (r:
        String)
        ensures
            r@ == (match correction {
                Ok(corrected) => corrected@,
                Err(_) => answer@,
            }),
    {
        match correction {
            Ok(corrected) => corrected,
            Err(_) => answer,
        }
    }

    /// What the client says of its model.
    pub fn info(&self) -> (r: ModelInfo)
        ensures
            r.name@ == self.config.model_name@,
            r.provider@ == self.config.provider@,
            r.supports_vision,
            r.max_tokens == self.config.max_tokens,
            r.context_window == 8192,
    {
        ModelInfo {
            name: self.config.model_name.clone(),
            provider: self.config.provider.clone(),
            supports_vision: true,
            max_tokens: self.config.max_tokens,
            context_window: 8192,
        }
    }
}

} // verus!
