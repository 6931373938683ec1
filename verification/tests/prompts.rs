use scrcpy_rs::agent::llm::prompts::{
    execution_system_prompt_on, get_auxiliary_system_prompt, get_main_system_prompt,
    get_planning_system_prompt, main_system_prompt_on,
};

#[test]
fn test_main_system_prompt_contains_required_elements() {
    let prompt = get_main_system_prompt(1080, 2400);
    assert!(prompt.contains("Screen Resolution: 1080x2400"));
    assert!(prompt.contains("do(action=\"Tap\""));
    assert!(prompt.contains("do(action=\"Type\""));
    assert!(prompt.contains("do(action=\"Swipe\""));
    assert!(prompt.contains("finish(message="));
}

#[test]
fn test_auxiliary_system_prompt_contains_instructions() {
    let prompt = get_auxiliary_system_prompt();
    assert!(prompt.contains("修正和规范化"));
    assert!(prompt.contains("do(action="));
    assert!(prompt.contains("finish(message="));
}

#[test]
fn prompts_hold_size_and_date() {
    let prompt = main_system_prompt_on(720, 1600, "2024年01月02日");
    assert!(prompt.starts_with("#\nThe current date:  2024年01月02日\n"));
    assert!(prompt.contains("- Screen Width: 720 pixels\n- Screen Height: 1600 pixels"));
    let prompt = execution_system_prompt_on(720, 1600, "2024年01月02日");
    assert!(prompt.contains("- 屏幕分辨率: 720x1600\n"));
    assert!(prompt.contains("- 当前日期: 2024年01月02日\n"));
    assert!(prompt.contains("(0-720, 0-1600)"));
    assert!(get_planning_system_prompt().starts_with("# 角色定义"));
}
