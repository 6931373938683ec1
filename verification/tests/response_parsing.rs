use scrcpy_rs::agent::actions::base::ActionEnum;
use scrcpy_rs::agent::actions::parse::normalize_action_type;
use scrcpy_rs::agent::actions::touch::TapAction;

fn parse_response(content: &str) -> (Option<String>, Vec<ActionEnum>) {
    ActionEnum::parse_from_response(content)
}

#[test]
fn autoglm_client_test_parse_finish_action() {
    let response = "Thinking...\nfinish(message=\"Task completed successfully\")";
    let (thinking, actions) = parse_response(response);
    assert!(!actions.is_empty());
    assert_eq!(actions.len(), 1);
    assert_eq!(actions[0].action_type(), "finish");
    assert!(thinking.is_none() || thinking.as_ref().unwrap() == "Thinking...");
}

#[test]
fn test_parse_do_action() {
    let response = "Analyzing screen...\ndo(action=\"Tap\", element=[500, 800])";
    let (thinking, actions) = parse_response(response);
    assert!(thinking.is_none());
    assert!(!actions.is_empty());
    assert_eq!(actions.len(), 1);
    assert_eq!(actions[0].action_type(), "tap");
}

#[test]
fn test_parse_thinking_with_do() {
    let response = "<thinking>I should tap the button at coordinates 100, 200</thinking>\ndo(action=\"Tap\", element=[100, 200])";
    let (thinking, actions) = parse_response(response);
    assert_eq!(thinking, Some("I should tap the button at coordinates 100, 200".to_string()));
    assert!(!actions.is_empty());
    assert_eq!(actions.len(), 1);
    assert_eq!(actions[0].action_type(), "tap");
}

#[test]
fn test_parse_no_markers() {
    let response = "Some random text without markers";
    let (thinking, actions) = parse_response(response);
    assert!(thinking.is_none());
    assert!(actions.is_empty());
}

#[test]
fn test_parse_priority() {
    let response1 = "Text...\ndo(action=tap)\nfinish(message=\"done\")";
    let (thinking, actions) = parse_response(response1);
    assert!(thinking.is_none());
    assert_eq!(actions.len(), 1);
    assert_eq!(actions[0].action_type(), "finish");

    let response2 = "<thinking>Thought</thinking>\n<answer>answer content</answer>\ndo(action=\"Launch\", app=\"微信\")";
    let (thinking, actions) = parse_response(response2);
    assert_eq!(thinking, Some("Thought".to_string()));
    assert_eq!(actions.len(), 1);
    assert_eq!(actions[0].action_type(), "launch");
}

#[test]
fn autoglm_client_test_parse_do_action_launch() {
    let response = "I need to open WeChat.\ndo(action=\"Launch\", app=\"微信\")";
    println!("Testing response: {:?}", response);
    let (thinking, actions) = parse_response(response);
    println!("Got thinking: {:?}", thinking);
    println!("Got actions: {:?}", actions);
    assert!(thinking.is_none());
    assert!(!actions.is_empty());
    assert_eq!(actions[0].action_type(), "launch");
}

#[test]
fn test_parse_do_action_wait() {
    let response = "应用正在加载中\ndo(action=\"Wait\", duration=1, message=\"应用正在加载中，请稍等。\")";
    let (thinking, actions) = parse_response(response);
    assert!(thinking.is_none());
    assert!(!actions.is_empty());
    assert_eq!(actions[0].action_type(), "wait");
}

#[test]
fn test_parse_finish_multiline() {
    let response = "finish(message=\"抱歉，我无法找到\"什么值得买\"这个应用。\n\n不过，我可以为您打开一些类似的应用来浏览购物或推荐内容，比如：\n- 淘宝\n- 美团\n\n您想打开哪个应用来浏览？\")";
    let (thinking, actions) = parse_response(response);
    assert!(thinking.is_none());
    assert!(!actions.is_empty());
    assert_eq!(actions[0].action_type(), "finish");
    if let ActionEnum::Finish(ref finish) = actions[0] {
        assert!(finish.result.contains("抱歉，我无法找到"));
        assert!(finish.result.contains("什么值得买"));
        assert!(finish.result.contains("淘宝"));
        assert!(finish.result.contains("美团"));
    } else {
        panic!("Expected FinishAction");
    }
}

#[test]
fn test_normalize_action_type() {
    assert_eq!(normalize_action_type("Launch"), "launch");
    assert_eq!(normalize_action_type("Tap"), "tap");
    assert_eq!(normalize_action_type("DoubleTap"), "double_tap");
    assert_eq!(normalize_action_type("LongPress"), "long_press");
}

#[test]
fn finish_message_keeps_every_part_and_succeeds() {
    let response = "finish(message=\"抱歉，我无法找到\"什么值得买\"这个应用。\n\n不过，我可以为您打开一些类似的应用来浏览购物或推荐内容，比如：\n- 淘宝\n- 美团\n\n您想打开哪个应用来浏览？\")";
    let (thinking, actions) = parse_response(response);
    assert_eq!(thinking, None);
    assert_eq!(actions.len(), 1);
    match &actions[0] {
        ActionEnum::Finish(f) => {
            for word in ["抱歉", "什么值得买", "淘宝", "美团", "您想打开"] {
                assert!(f.result.contains(word));
            }
            assert!(f.success);
        }
        _ => panic!("expected a finish"),
    }
}

#[test]
fn finish_has_priority_over_do() {
    let (_, actions) = parse_response("Text...\ndo(action=tap)\nfinish(message=\"done\")");
    assert_eq!(actions.len(), 1);
    match &actions[0] {
        ActionEnum::Finish(f) => assert_eq!(f.result, "done"),
        _ => panic!("expected a finish"),
    }
}

#[test]
fn two_taps_come_out_in_order() {
    let (thinking, actions) = parse_response(
        "<thinking>need two taps</thinking>\ndo(action=\"Tap\", element=[100,200])\ndo(action=\"Tap\", element=[300,400])",
    );
    assert_eq!(thinking, Some("need two taps".to_string()));
    assert_eq!(
        actions,
        vec![
            ActionEnum::Tap(TapAction { x: 100, y: 200, description: None }),
            ActionEnum::Tap(TapAction { x: 300, y: 400, description: None }),
        ]
    );
}

#[test]
fn unclosed_finish_is_still_the_only_action() {
    let (_, actions) = parse_response("finish(message=\"never closed\ndo(action=\"Back\")");
    assert_eq!(actions.len(), 1);
    match &actions[0] {
        ActionEnum::Finish(f) => {
            assert_eq!(f.result, "never closed\ndo(action=\"Back\")");
            assert!(f.success);
        }
        other => panic!("not a finish: {:?}", other),
    }
    let (_, actions) = parse_response("finish(never closed");
    assert_eq!(actions.len(), 1);
    match &actions[0] {
        ActionEnum::Finish(f) => assert_eq!(f.result, "never closed"),
        other => panic!("not a finish: {:?}", other),
    }
    let (_, actions) = parse_response("do(action=\"Back\") finish(oops");
    assert_eq!(actions.len(), 1);
    assert_eq!(actions[0].action_type(), "finish");
    let (_, actions) = parse_response("finish(");
    assert_eq!(actions.len(), 1);
    match &actions[0] {
        ActionEnum::Finish(f) => assert_eq!(f.result, ""),
        other => panic!("not a finish: {:?}", other),
    }
}

#[test]
fn invalid_do_call_is_skipped_and_the_rest_proceeds() {
    let (_, actions) = parse_response(
        "do(action=\"Tap\", element=[20000, 5])\ndo(action=\"Swipe\", start=[1,2], end=[3,4])\ndo(action=\"Nonsense\")",
    );
    assert_eq!(actions.len(), 1);
    match &actions[0] {
        ActionEnum::Swipe(s) => {
            assert_eq!((s.start_x, s.start_y, s.end_x, s.end_y, s.duration_ms), (1, 2, 3, 4, 500));
        }
        _ => panic!("expected a swipe"),
    }
}

#[test]
fn wait_takes_seconds_and_message() {
    let (_, actions) = parse_response("do(action=\"Wait\", duration=2, message=\"loading\")");
    match &actions[0] {
        ActionEnum::Wait(w) => {
            assert_eq!(w.duration_ms, 2000);
            assert_eq!(w.reason, Some("loading".to_string()));
        }
        _ => panic!("expected a wait"),
    }
    let (_, actions) = parse_response("do(action=\"Wait\", duration=\"3\")");
    match &actions[0] {
        ActionEnum::Wait(w) => assert_eq!(w.duration_ms, 3000),
        _ => panic!("expected a wait"),
    }
    let (_, actions) = parse_response("do(action=\"Wait\", duration=61)");
    assert!(actions.is_empty());
}

#[test]
fn launch_resolves_alias_and_rejects_unknown_app() {
    let (_, actions) = parse_response("do(action=\"Launch\", app=\"微信\")");
    match &actions[0] {
        ActionEnum::Launch(l) => assert_eq!(l.package, "com.tencent.mm"),
        _ => panic!("expected a launch"),
    }
    let (_, actions) = parse_response("do(action=\"Launch\", app=\"no such app\")");
    assert!(actions.is_empty());
}

#[test]
fn kind_aliases_are_case_insensitive() {
    let (_, actions) = parse_response("do(action=\"DOUBLETAP\", element=[1,2])\ndo(action=\"LongPress\", element=[3,4])\ndo(action=\"PressKey\", keycode=66)");
    assert_eq!(actions.len(), 3);
    assert_eq!(actions[0].action_type(), "double_tap");
    assert_eq!(actions[1].action_type(), "long_press");
    assert_eq!(actions[2].action_type(), "press_key");
}
