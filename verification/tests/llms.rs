use ai_tools_lib_rust::json::JsonValue;
use ai_tools_lib_rust::llms::base::{missing_executor_error, LlmError, Message, Role, Tool};
use ai_tools_lib_rust::llms::openai::AdapterCall;
use ai_tools_lib_rust::OpenAILLM;

#[test]
fn a_tool_without_executor_is_an_error() {
    match missing_executor_error("echo") {
        LlmError::Request(m) => assert_eq!(m, "Tool 'echo' was requested but has no executor"),
        other => panic!("unexpected {:?}", other),
    }
}

#[test]
fn text_messages_hold_their_text() {
    let m = Message::new(Role::User, "hello".to_string());
    assert!(matches!(m.role, Role::User));
    assert!(matches!(m.content, JsonValue::String(ref s) if s == "hello"));
    let t = Tool::new("echo".into(), "Echo tool".into(), JsonValue::Null);
    assert_eq!(t.name, "echo");
    assert_eq!(t.description, "Echo tool");
}

#[test]
fn openai_answers_every_request_with_an_error() {
    let llm = OpenAILLM::new("key".into());
    assert_eq!(llm.get_model(true, true, true), "gpt-5-nano");
    assert_eq!(llm.get_model(false, false, false), "gpt-5-nano");
    match llm.refusal(AdapterCall::Generate) {
        LlmError::Request(m) => assert_eq!(m, "OpenAI generation not configured in Rust implementation"),
        other => panic!("unexpected {:?}", other),
    }
    match llm.refusal(AdapterCall::VideoGeneration) {
        LlmError::Request(m) => assert_eq!(m, "OpenAI does not support video generation"),
        other => panic!("unexpected {:?}", other),
    }
}
