use scrcpy_rs::agent::actions::base::ActionEnum;
use scrcpy_rs::agent::config::agent_config::{ConfigError, FullAgentConfig};
use scrcpy_rs::agent::engine::traits::{
    ChatMessage, MessageRole, ModelError, ParamValue, ParsedAction,
};
use scrcpy_rs::agent::llm::autoglm_client::{AutoGLMClient, NextStage, Stage};
use scrcpy_rs::agent::llm::client::{
    authorization, check_status, endpoint, first_choice_text, model_response, network_failure,
    to_api_messages, tokens_of, OpenAIClient,
};
use scrcpy_rs::agent::llm::parser::{
    duration_of_matches, extract_completion_message, extract_coordinates, extract_duration,
    extract_text_after, mentions_completion, parse_action_from_response, parse_key_value_pairs, parse_single_pair, try_parse_do_action,
    try_parse_finish_action, try_parse_json_action,
};
use scrcpy_rs::agent::llm::prompts::{get_auxiliary_system_prompt, execution_system_prompt_on};
use scrcpy_rs::agent::llm::providers::{create_autoglm_client, create_model_client, ModelClientKind};
use scrcpy_rs::agent::llm::types::{
    ChatMessage as ApiMessage, ChatResponse, Choice, ContentBlock, ImageUrl, MessageContent,
    MessageRole as ApiRole, ModelConfig, Usage,
};

fn msg(role: MessageRole, content: &str) -> ChatMessage {
    ChatMessage { role, content: content.to_string() }
}

fn image(text: &str, shot: &str) -> MessageContent {
    MessageContent::Multimodal(vec![
        ContentBlock {
            block_type: "image_url".to_string(),
            text: None,
            image_url: Some(ImageUrl { url: format!("data:image/png;base64,{}", shot) }),
        },
        ContentBlock { block_type: "text".to_string(), text: Some(text.to_string()), image_url: None },
    ])
}

fn response(content: Option<MessageContent>, usage: Option<Usage>) -> ChatResponse {
    ChatResponse {
        id: None,
        object: None,
        created: None,
        model: None,
        choices: content
            .into_iter()
            .map(|c| Choice { index: 0, message: ApiMessage { role: ApiRole::Assistant, content: c }, finish_reason: None })
            .collect(),
        usage,
    }
}

fn three_stage() -> AutoGLMClient {
    let mut config = ModelConfig::local("http://h/v1".to_string(), "small".to_string());
    config.enable_three_stage = true;
    config.auxiliary_model_name = Some("aux".to_string());
    config.planning_model_name = Some("planner".to_string());
    config.execution_model_name = Some("executor".to_string());
    AutoGLMClient::new(config)
}

#[test]
fn test_default_config() {
    let config = FullAgentConfig::default();
    assert_eq!(config.agent.max_steps, 50);
    assert_eq!(config.model.provider, "openai");
}

#[test]
fn test_model_config_default() {
    let config = ModelConfig::default();
    assert_eq!(config.provider, "openai");
    assert_eq!(config.model_name, "gpt-4o");
}

#[test]
fn test_model_config_local() {
    let config =
        ModelConfig::local("http://localhost:8000/v1".to_string(), "autoglm-phone-9b".to_string());
    assert_eq!(config.provider, "local");
    assert_eq!(config.base_url, "http://localhost:8000/v1");
}

#[test]
fn test_create_openai_client() {
    let config = ModelConfig { provider: "openai".to_string(), ..Default::default() };
    let client = create_model_client(&config);
    assert!(client.is_ok());
}

#[test]
fn test_create_autoglm_client() {
    let config =
        ModelConfig::local("http://localhost:8000/v1".to_string(), "autoglm-phone-9b".to_string());
    let client = create_model_client(&config);
    assert!(client.is_ok());
}

#[test]
fn test_create_autoglm_client_helper() {
    let client =
        create_autoglm_client("http://localhost:8000/v1".to_string(), "autoglm-phone-9b".to_string());
    assert_eq!(client.config.model_name, "autoglm-phone-9b");
    assert_eq!(client.info().context_window, 8192);
}

#[test]
fn providers_and_configurations() {
    let mut config = ModelConfig::default();
    assert_eq!((config.max_tokens, config.temperature, config.top_p, config.timeout), (4096, 0, 850, 30));
    assert_eq!(config.base_url, "https://api.openai.com/v1");
    for (provider, openai) in [("openai", true), ("azure", true), ("local", false), ("autoglm", false)] {
        config.provider = provider.to_string();
        match create_model_client(&config).unwrap() {
            ModelClientKind::OpenAI(c) => {
                assert!(openai);
                assert_eq!(c.config, config);
            }
            ModelClientKind::AutoGLM(c) => {
                assert!(!openai);
                assert_eq!(c.config, config);
            }
        }
    }
    config.provider = "OpenAI".to_string();
    assert_eq!(
        create_model_client(&config),
        Err(ModelError::ApiError("不支持的模型提供商: OpenAI".to_string()))
    );
    let azure = ModelConfig::azure("k".into(), "https://e".into(), "dep".into(), "2024".into());
    assert_eq!(azure.provider, "azure");
    assert_eq!(azure.model_name, "dep");
    assert_eq!(azure.base_url, "https://e/openai/deployments/2024");
    let local = ModelConfig::local("u".into(), "m".into());
    assert_eq!((local.api_key.as_str(), local.timeout), ("EMPTY", 60));
    assert_eq!(local.copy(), local);
    let full = FullAgentConfig::with_local_model("u".into(), "m".into());
    assert_eq!(full.model.provider, "local");
    assert_eq!(FullAgentConfig::default_config(), FullAgentConfig::default());
    let over = full.clone().with_overrides(Some("key".into()), None);
    assert_eq!((over.model.api_key.as_str(), over.model.base_url.as_str()), ("key", "u"));
    let over = full.with_overrides(None, Some("v".into()));
    assert_eq!((over.model.api_key.as_str(), over.model.base_url.as_str()), ("EMPTY", "v"));
    assert_eq!(ConfigError::IoError("a".into()).message(), "IO 错误: a");
    assert_eq!(ConfigError::ParseError("a".into()).message(), "解析错误: a");
    assert_eq!(ConfigError::SerializeError("a".into()).message(), "序列化错误: a");
    assert_eq!(ConfigError::ValidationError("a".into()).message(), "验证错误: a");
}

#[test]
fn only_the_last_user_message_carries_the_screenshot() {
    let messages = vec![
        msg(MessageRole::System, "sys"),
        msg(MessageRole::User, "first"),
        msg(MessageRole::Assistant, "answer"),
        msg(MessageRole::User, "second"),
        msg(MessageRole::Assistant, "tail"),
    ];
    let api = to_api_messages(&messages, Some("SHOT"));
    assert_eq!(api.len(), 5);
    assert_eq!(api[0], ApiMessage { role: ApiRole::System, content: MessageContent::Text("sys".into()) });
    assert_eq!(api[1], ApiMessage { role: ApiRole::User, content: MessageContent::Text("first".into()) });
    assert_eq!(api[3], ApiMessage { role: ApiRole::User, content: image("second", "SHOT") });
    assert_eq!(api[4].content, MessageContent::Text("tail".into()));
    let plain = to_api_messages(&messages, None);
    assert!(plain.iter().all(|m| matches!(m.content, MessageContent::Text(_))));
    let none = to_api_messages(&vec![msg(MessageRole::System, "s")], Some("SHOT"));
    assert_eq!(none[0].content, MessageContent::Text("s".into()));
    assert!(to_api_messages(&vec![], Some("x")).is_empty());
    assert_eq!(ImageUrl::from_base64("abc").url, "data:image/png;base64,abc");
}

#[test]
fn what_a_status_means() {
    assert_eq!(check_status(200, "200 OK", ""), Ok(()));
    assert_eq!(check_status(299, "", ""), Ok(()));
    assert_eq!(check_status(401, "401 Unauthorized", "x"), Err(ModelError::InvalidApiKey));
    assert_eq!(check_status(429, "429", "x"), Err(ModelError::RateLimit));
    assert_eq!(
        check_status(500, "500 Internal Server Error", "oops"),
        Err(ModelError::ApiError("请求失败: 500 Internal Server Error - oops".to_string()))
    );
    assert_eq!(
        check_status(199, "199", ""),
        Err(ModelError::ApiError("请求失败: 199 - ".to_string()))
    );
    assert!(check_status(300, "300", "").is_err());
    assert_eq!(network_failure(true, true, "x"), ModelError::Timeout);
    assert_eq!(
        network_failure(false, true, "x"),
        ModelError::NetworkError("无法连接到服务器: x".to_string())
    );
    assert_eq!(
        network_failure(false, false, "x"),
        ModelError::NetworkError("发送请求失败: x".to_string())
    );
    assert_eq!(ModelError::ApiError("a".into()).message(), "API 请求失败: a");
    assert_eq!(ModelError::ParseError("a".into()).message(), "解析响应失败: a");
    assert_eq!(ModelError::RateLimit.message(), "超出速率限制");
    assert_eq!(ModelError::InvalidApiKey.message(), "无效的 API 密钥");
    assert_eq!(ModelError::NetworkError("a".into()).message(), "网络错误: a");
    assert_eq!(ModelError::Timeout.message(), "超时");
}

#[test]
fn reading_a_response() {
    let client = OpenAIClient::new(ModelConfig::default());
    let r = response(
        Some(MessageContent::Text("<thinking> go </thinking>do(action=\"Home\")".into())),
        Some(Usage { prompt_tokens: 1, completion_tokens: 2, total_tokens: 3 }),
    );
    let m = client.read_response(&r).unwrap();
    assert_eq!(m.tokens_used, 3);
    assert_eq!(m.confidence_permille, 800);
    assert_eq!(m.reasoning, Some("go".to_string()));
    assert_eq!(m.actions.len(), 1);
    assert_eq!(m.actions[0].action_type(), "home");
    let empty = response(None, None);
    assert_eq!(
        client.read_response(&empty).err(),
        Some(ModelError::ParseError("响应中没有选择项".to_string()))
    );
    let blocks = response(Some(MessageContent::Multimodal(vec![])), None);
    let m = client.read_response(&blocks).unwrap();
    assert_eq!((m.content.as_str(), m.tokens_used), ("", 0));
    assert!(m.actions.is_empty());
    assert_eq!(first_choice_text(&empty, "none"), Err(ModelError::ParseError("none".to_string())));
    assert_eq!(tokens_of(&blocks), 0);
    let info = client.info();
    assert_eq!((info.name.as_str(), info.provider.as_str()), ("gpt-4o", "openai"));
    assert_eq!((info.max_tokens, info.context_window, info.supports_vision), (4096, 128000, true));
    assert_eq!(endpoint(&client.config), "https://api.openai.com/v1/chat/completions");
    let mut keyed = ModelConfig::default();
    keyed.api_key = "SECRET".to_string();
    assert_eq!(authorization(&keyed), "Bearer SECRET");
    let request = client.build_request(&vec![msg(MessageRole::User, "u")], Some("S"));
    assert_eq!(request.model, "gpt-4o");
    assert_eq!(request.messages[0].content, image("u", "S"));
    assert_eq!(
        (request.max_tokens, request.temperature, request.top_p, request.stream),
        (Some(4096), Some(0), Some(850), Some(false))
    );
    assert_eq!(model_response("nothing".to_string(), 9).reasoning, None);
}

#[test]
fn the_three_stages() {
    let c = three_stage();
    assert!(c.supports_three_stage());
    assert_eq!(c.first_stage(true), Ok(Stage::Plan));
    assert_eq!(c.first_stage(false), Err(ModelError::ParseError("三阶段模式需要截图".to_string())));
    assert_eq!(c.next_stage(Stage::Plan, "tap the button"), NextStage::Run(Stage::Execute));
    assert_eq!(c.next_stage(Stage::Execute, "do(action=\"Back\")"), NextStage::Finish);
    assert_eq!(c.next_stage(Stage::Execute, "I would press back"), NextStage::Run(Stage::Correct));
    assert_eq!(c.next_stage(Stage::Correct, "still nothing"), NextStage::Finish);

    let history = vec![msg(MessageRole::System, "s"), msg(MessageRole::User, "u")];
    let plan = c.plan_request(&history).unwrap();
    assert_eq!(plan.model, "planner");
    assert_eq!(plan.messages.len(), 2);
    assert!(plan.messages.iter().all(|m| matches!(m.content, MessageContent::Text(_))));
    assert_eq!((plan.max_tokens, plan.temperature, plan.top_p), (Some(1024), Some(300), Some(100)));

    let exec = c.execute_request("tap ok", "IMG", 1080, 2400, "2024年01月02日");
    assert_eq!(exec.model, "executor");
    assert_eq!(exec.messages.len(), 2);
    assert_eq!(
        exec.messages[0].content,
        MessageContent::Text(execution_system_prompt_on(1080, 2400, "2024年01月02日"))
    );
    assert_eq!(
        exec.messages[1].content,
        image("tap ok\n\n请根据当前截图和上述动作描述生成具体的执行参数。", "IMG")
    );
    assert_eq!((exec.max_tokens, exec.temperature, exec.top_p), (Some(2048), Some(100), Some(100)));
    assert!(exec.temperature < plan.temperature);

    let aux = c.auxiliary_request("raw").unwrap();
    assert_eq!(aux.model, "aux");
    assert_eq!(aux.messages[0].content, MessageContent::Text(get_auxiliary_system_prompt()));
    assert_eq!(
        aux.messages[1].content,
        MessageContent::Text("请修正以下输出，使其符合格式要求：\n\nraw".to_string())
    );
    assert_eq!((aux.max_tokens, aux.temperature, aux.top_p), (Some(2048), Some(0), Some(850)));
}

#[test]
fn stages_fall_back_on_other_models() {
    let mut config = ModelConfig::local("u".into(), "main".into());
    let plain = AutoGLMClient::new(config.clone());
    assert!(!plain.supports_three_stage());
    assert_eq!(plain.first_stage(false), Ok(Stage::Execute));
    assert_eq!(
        plain.plan_request(&vec![]).err(),
        Some(ModelError::ApiError("未配置规划模型".to_string()))
    );
    assert!(plain.auxiliary_request("x").is_none());
    assert!(!plain.needs_correction("no action here"));
    assert_eq!(plain.execute_request("p", "i", 1, 2, "d").model, "main");
    config.auxiliary_model_name = Some("aux".to_string());
    let with_aux = AutoGLMClient::new(config);
    assert_eq!(with_aux.plan_request(&vec![]).unwrap().model, "aux");
    assert!(with_aux.needs_correction("no action here"));
    assert!(!with_aux.needs_correction("do(action=\"Back\")"));
    let request = with_aux.build_request(&vec![msg(MessageRole::User, "u")], None);
    assert_eq!(request.model, "main");
    let text = response(Some(MessageContent::Text("t".into())), None);
    let blocks = response(Some(MessageContent::Multimodal(vec![])), None);
    let empty = response(None, None);
    assert_eq!(with_aux.stage_output(Stage::Plan, &text, ""), Ok("t".to_string()));
    assert_eq!(
        with_aux.stage_output(Stage::Plan, &blocks, ""),
        Err(ModelError::ParseError("规划模型输出格式错误".to_string()))
    );
    assert_eq!(
        with_aux.stage_output(Stage::Execute, &blocks, ""),
        Err(ModelError::ParseError("执行模型输出格式错误".to_string()))
    );
    assert_eq!(with_aux.stage_output(Stage::Correct, &blocks, "old"), Ok("old".to_string()));
    assert_eq!(
        with_aux.stage_output(Stage::Plan, &empty, ""),
        Err(ModelError::ParseError("规划模型响应中没有选择项".to_string()))
    );
    assert_eq!(
        with_aux.stage_output(Stage::Execute, &empty, ""),
        Err(ModelError::ParseError("执行模型响应中没有选择项".to_string()))
    );
    assert_eq!(
        with_aux.stage_output(Stage::Correct, &empty, ""),
        Err(ModelError::ParseError("辅助模型响应中没有选择项".to_string()))
    );
    let (thinking, actions) = with_aux.parse_response("<thinking>x</thinking>finish(done)");
    assert_eq!(thinking, Some("x".to_string()));
    assert_eq!(actions.len(), 1);
    assert!(matches!(actions[0], ActionEnum::Finish(_)));
}

#[test]
fn test_extract_coordinates() {
    assert_eq!(extract_coordinates("tap at (100, 200)"), Some((100, 200)));
    assert_eq!(extract_coordinates("点击 (500, 800)"), Some((500, 800)));
}

#[test]
fn test_extract_duration() {
    assert_eq!(extract_duration("wait 1s"), Some(1000));
    assert_eq!(extract_duration("等待 2 秒"), Some(2000));
    assert_eq!(extract_duration("wait 500ms"), Some(500));
}

#[test]
fn test_parse_json_action() {
    let response = "{\"action_type\": \"tap\", \"x\": 100, \"y\": 200}";
    let action = try_parse_json_action(response);
    assert!(action.is_some());
    assert_eq!(action.unwrap().action_type, "tap");
}

#[test]
fn parser_test_parse_do_action_launch() {
    let response = "do(action=\"Launch\", app=\"微信\")";
    let action = try_parse_do_action(response);
    assert!(action.is_some());
    let parsed = action.unwrap();
    assert_eq!(parsed.action_type, "launch");
    assert_eq!(parsed.parameters.get("app"), Some(&ParamValue::Text("微信".to_string())));
}

#[test]
fn test_parse_do_action_tap() {
    let response = "do(action=\"Tap\", element=[500, 800])";
    let action = try_parse_do_action(response);
    assert!(action.is_some());
    let parsed = action.unwrap();
    assert_eq!(parsed.action_type, "tap");
    assert_eq!(parsed.parameters.get("element"), Some(&ParamValue::List(vec![Some(500), Some(800)])));
}

#[test]
fn parser_test_parse_finish_action() {
    let response = "finish(message=\"任务完成\")";
    let action = try_parse_finish_action(response);
    assert!(action.is_some());
    let parsed = action.unwrap();
    assert_eq!(parsed.action_type, "finish");
}

#[test]
fn pairs_of_a_parameter_list() {
    assert_eq!(parse_single_pair(" a = b "), Some(("a".to_string(), "b".to_string())));
    assert_eq!(parse_single_pair("a=b=c"), Some(("a".to_string(), "b=c".to_string())));
    assert_eq!(parse_single_pair("="), Some((String::new(), String::new())));
    assert_eq!(parse_single_pair("nothing"), None);
    let pair = |k: &str, v: &str| (k.to_string(), v.to_string());
    assert_eq!(
        parse_key_value_pairs(" action=\"Tap\", element=[500, 800], n = 3 ,junk, f={a:(1,2)} "),
        vec![pair("action", "\"Tap\""), pair("element", "[500, 800]"), pair("n", "3"), pair("f", "{a:(1,2)}")]
    );
    assert_eq!(parse_key_value_pairs(""), vec![]);
    assert_eq!(parse_key_value_pairs("a=1]], b=2"), vec![pair("a", "1]], b=2")]);
}

#[test]
fn operations_in_every_form() {
    let finish = |message: &str, response: &str| {
        let mut p = scrcpy_rs::agent::engine::traits::Params::new();
        p.insert("result".to_string(), ParamValue::Text(message.to_string()));
        p.insert("success".to_string(), ParamValue::Bool(true));
        ParsedAction { action_type: "finish".to_string(), parameters: p, reasoning: response.to_string() }
    };
    let same = |a: &ParsedAction, b: &ParsedAction| {
        a.action_type == b.action_type
            && a.reasoning == b.reasoning
            && a.parameters.get("result") == b.parameters.get("result")
            && a.parameters.get("success") == b.parameters.get("success")
    };
    let r = "finish(message=\"all good\")";
    assert!(same(&try_parse_finish_action(r).unwrap(), &finish("all good", r)));
    let r = "finish(message=plain words)";
    assert!(same(&try_parse_finish_action(r).unwrap(), &finish("=plain words", r)));
    let r = "finish(message=no end\nnext line";
    assert!(same(&try_parse_finish_action(r).unwrap(), &finish("=no end", r)));
    let r = "finish(\"short\")";
    assert!(same(&try_parse_finish_action(r).unwrap(), &finish("short", r)));
    assert!(try_parse_finish_action("finish()").is_none());

    let d = try_parse_do_action("do(action='Swipe', start=[1,2], speed=fast, ok=true, n=7, action=Tap)")
        .unwrap();
    assert_eq!(d.action_type, "swipe");
    assert_eq!(d.parameters.get("start"), Some(&ParamValue::List(vec![Some(1), Some(2)])));
    assert_eq!(d.parameters.get("speed"), Some(&ParamValue::Text("fast".to_string())));
    assert_eq!(d.parameters.get("ok"), Some(&ParamValue::Bool(true)));
    assert_eq!(d.parameters.get("n"), Some(&ParamValue::Int(7)));
    assert!(d.parameters.get("action").is_none());
    assert_eq!(try_parse_do_action("do(action=Back)").unwrap().action_type, "back");
    assert!(try_parse_do_action("do(x=1)").is_none());
    assert!(try_parse_do_action("nothing").is_none());

    let j = try_parse_json_action("{\"bad\": 1} {\"type\": \"swipe\", \"start\": [1, 2], \"f\": 1.5}").unwrap();
    assert_eq!(j.action_type, "swipe");
    assert_eq!(j.parameters.get("start"), Some(&ParamValue::List(vec![Some(1), Some(2)])));
    assert_eq!(j.parameters.get("f"), Some(&ParamValue::Other));
    assert!(try_parse_json_action("{\"action_type\": 5, \"action\": \"tap\"}").is_none());
    assert!(try_parse_json_action("{not json}").is_none());

    let a = parse_action_from_response("do(action=\"Home\")").unwrap().unwrap();
    assert_eq!(a.action_type, "home");
    let a = parse_action_from_response("{\"action\": \"back\"}").unwrap().unwrap();
    assert_eq!(a.action_type, "back");
    let r = "The task is \"really\" done";
    assert!(same(&parse_action_from_response(r).unwrap().unwrap(), &finish("really", r)));
    let r = "  Completed everything  ";
    assert!(same(&parse_action_from_response(r).unwrap().unwrap(), &finish("Completed everything", r)));
    assert_eq!(parse_action_from_response("just thinking"), Ok(None));
}

#[test]
fn pieces_of_free_text() {
    let long = "x".repeat(101);
    assert_eq!(extract_completion_message(&long), format!("{}...", "x".repeat(100)));
    assert_eq!(extract_completion_message(&"好".repeat(100)), "好".repeat(100));
    assert_eq!(extract_completion_message("say \"this\" and \"that\""), "this");
    assert_eq!(extract_coordinates("(1 2) (3,4)"), Some((1, 2)));
    assert_eq!(extract_coordinates("(99999999999, 1)"), None);
    assert_eq!(extract_coordinates("none"), None);
    assert_eq!(extract_duration("5000000 seconds"), None);
    assert_eq!(extract_duration("4294967 SEC"), Some(4294967000));
    assert_eq!(extract_duration("12 毫秒"), Some(12));
    assert_eq!(extract_duration("soon"), None);
    let keys = vec!["type:".to_string(), "输入:".to_string()];
    assert_eq!(extract_text_after("please type:  hello world \nnext", &keys), Some("hello world".to_string()));
    assert_eq!(extract_text_after("输入: 你好", &keys), Some("你好".to_string()));
    assert_eq!(extract_text_after("type:   \n 输入: x", &keys), Some("输入: x".to_string()));
    assert_eq!(extract_text_after("type:", &keys), None);
    assert_eq!(extract_text_after("nothing", &keys), None);
    assert_eq!(extract_text_after("type: a", &vec![]), None);
}

#[test]
fn a_single_stage_answer_is_read_and_corrected() {
    let client = AutoGLMClient::new(ModelConfig::default());
    let plain = response(Some(MessageContent::Text("do(action=\"Back\")".to_string())), None);
    assert_eq!(client.single_stage_output(&plain), Ok("do(action=\"Back\")".to_string()));
    let parts = response(Some(MessageContent::Multimodal(vec![])), None);
    assert_eq!(client.single_stage_output(&parts), Ok(String::new()));
    let empty = response(None, None);
    assert_eq!(
        client.single_stage_output(&empty),
        Err(ModelError::ParseError("响应中没有选择项".to_string()))
    );
    assert_eq!(
        client.after_correction("raw".to_string(), Ok("fixed".to_string())),
        "fixed"
    );
    assert_eq!(
        client.after_correction("raw".to_string(), Err(ModelError::Timeout)),
        "raw"
    );
}

#[test]
fn durations_and_completion_are_read_from_lowered_text() {
    let m = |a: &str, b: &str| vec![vec![Some(a.to_string()), Some(b.to_string())]];
    assert_eq!(duration_of_matches(&m("2 seconds", "2"), &vec![]), Some(2000));
    assert_eq!(duration_of_matches(&m("2 seconds", "2"), &m("7ms", "7")), Some(2000));
    assert_eq!(duration_of_matches(&vec![], &m("7ms", "7")), Some(7));
    assert_eq!(duration_of_matches(&m("x", "4294968"), &m("7ms", "7")), None);
    assert_eq!(duration_of_matches(&vec![], &vec![]), None);
    assert!(mentions_completion("the task is done"));
    assert!(mentions_completion("finish"));
    assert!(mentions_completion("all complete now"));
    assert!(!mentions_completion("DONE"));
    assert!(!mentions_completion("still working"));
}
