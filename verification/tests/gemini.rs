use ai_tools_lib_rust::json::{JsonNumber, JsonValue};
use ai_tools_lib_rust::llms::base::{LlmError, Message, Role, Tool};
use ai_tools_lib_rust::llms::gemini::{strip_additional_properties, GeminiConfig};
use ai_tools_lib_rust::llms::gemini_chat::{
    build_function_response_parts, check_chat_request, find_tool, first_part_text, gemini_refusal,
    handle_generate_response, record_tool_round, structured_request_body, structured_response_text, Candidate,
    Content, FunctionCall, GenerateContentResponse, GenerateStep, GeminiRestError, Part, UsageMetadata,
};
use ai_tools_lib_rust::llms::gemini_request::{
    build_tools_payload, generate_content_url, message_parts, messages_to_contents, request_body,
};
use ai_tools_lib_rust::llms::gemini_response::{
    collect_function_calls, collect_function_calls_with_ids, extract_first_text, extract_parts,
    update_token_counter_from_response, PendingFunctionCall,
};
use ai_tools_lib_rust::llms::openai::AdapterCall;
use ai_tools_lib_rust::TokenCounter;

fn text(s: &str) -> JsonValue {
    JsonValue::String(s.to_string())
}

fn num(n: u64) -> JsonValue {
    JsonValue::Number(JsonNumber::PosInt(n))
}

fn object(entries: Vec<(&str, JsonValue)>) -> JsonValue {
    JsonValue::Object(entries.into_iter().map(|(k, v)| (k.to_string(), v)).collect())
}

fn keys(v: &JsonValue) -> Vec<String> {
    match v {
        JsonValue::Object(entries) => entries.iter().map(|(k, _)| k.clone()).collect(),
        _ => panic!("not an object"),
    }
}

fn str_at<'a>(v: &'a JsonValue, path: &[&str]) -> Option<&'a str> {
    let mut cur = v;
    for k in path {
        cur = cur.get(k)?;
    }
    cur.as_str()
}

#[test]
fn strip_additional_removes_nested() {
    let v = object(vec![
        ("type", text("object")),
        ("additionalProperties", JsonValue::Bool(false)),
        (
            "properties",
            object(vec![("a", object(vec![("type", text("string")), ("additionalProperties", JsonValue::Bool(true))]))]),
        ),
    ]);
    let out = strip_additional_properties(v);
    assert!(!keys(&out).contains(&"additionalProperties".to_string()));
    let a = out.get("properties").unwrap().get("a").unwrap();
    assert!(!keys(a).contains(&"additionalProperties".to_string()));
}

#[test]
fn strip_reaches_into_arrays_and_keeps_the_rest() {
    let v = JsonValue::Array(vec![object(vec![("additionalProperties", JsonValue::Bool(true)), ("x", num(1))]), text("s")]);
    match strip_additional_properties(v) {
        JsonValue::Array(items) => {
            assert_eq!(keys(&items[0]), vec!["x".to_string()]);
            assert_eq!(items[1].as_str(), Some("s"));
        },
        _ => panic!("not an array"),
    }
}

#[test]
fn first_text_part_is_selected_even_after_function_call_part() {
    let content = Content {
        parts: Some(vec![
            Part {
                text: None,
                function_call: Some(FunctionCall {
                    name: Some("get_full_transcript".to_string()),
                    id: Some("abc123".to_string()),
                    args: Some(object(vec![])),
                }),
                thought_signature: Some("sig".to_string()),
            },
            Part { text: Some(r#"{"answer":"ok"}"#.to_string()), function_call: None, thought_signature: None },
        ]),
    };

    let extracted = first_part_text(&content.parts.unwrap()).unwrap();
    assert_eq!(extracted, r#"{"answer":"ok"}"#);
}

#[test]
fn collect_function_calls_assigns_id_and_preserves_order() {
    let parts = vec![
        object(vec![
            ("functionCall", object(vec![("name", text("a_tool")), ("args", object(vec![("x", num(1))]))])),
            ("thoughtSignature", text("sig-a")),
        ]),
        object(vec![(
            "functionCall",
            object(vec![("id", text("call-2")), ("name", text("b_tool")), ("args", object(vec![("y", num(2))]))]),
        )]),
    ];
    let calls = collect_function_calls(&parts);
    assert_eq!(calls.len(), 2);
    assert_eq!(calls[0].name, "a_tool");
    assert_eq!(calls[1].name, "b_tool");
    assert_eq!(str_at(&calls[1].raw_part, &["functionCall", "id"]), Some("call-2"));
    assert!(str_at(&calls[0].raw_part, &["functionCall", "id"]).is_some());
}

#[test]
fn fresh_call_ids_look_like_uuids() {
    let parts = vec![object(vec![("functionCall", object(vec![("name", text("t"))]))])];
    let calls = collect_function_calls(&parts);
    let id = str_at(&calls[0].raw_part, &["functionCall", "id"]).unwrap();
    assert_eq!(id.len(), 36);
    for (i, c) in id.chars().enumerate() {
        if i == 8 || i == 13 || i == 18 || i == 23 {
            assert_eq!(c, '-');
        } else {
            assert!(c.is_ascii_hexdigit() && !c.is_ascii_uppercase());
        }
    }
}

#[test]
fn calls_with_given_ids_are_exact() {
    let parts = vec![
        text("not a call"),
        object(vec![("functionCall", object(vec![("name", text("t"))]))]),
        object(vec![("functionCall", object(vec![("args", object(vec![]))]))]),
    ];
    let ids = vec![String::new(), "fixed".to_string(), "unused".to_string()];
    let calls = collect_function_calls_with_ids(&parts, &ids);
    assert_eq!(calls.len(), 1);
    assert_eq!(calls[0].name, "t");
    assert_eq!(keys(&calls[0].args).len(), 0);
    assert_eq!(str_at(&calls[0].raw_part, &["functionCall", "id"]), Some("fixed"));
    assert_eq!(str_at(&calls[0].raw_part, &["functionCall", "name"]), Some("t"));
}

#[test]
fn message_parts_wrap_text_and_keep_objects() {
    let parts = message_parts(&text("hi")).unwrap();
    assert_eq!(parts.len(), 1);
    assert_eq!(str_at(&parts[0], &["text"]), Some("hi"));
    let parts = message_parts(&JsonValue::Array(vec![text("a"), object(vec![("inline", text("b"))])])).unwrap();
    assert_eq!(parts.len(), 2);
    assert_eq!(str_at(&parts[0], &["text"]), Some("a"));
    assert_eq!(str_at(&parts[1], &["inline"]), Some("b"));
}

#[test]
fn message_parts_refuse_other_content() {
    match message_parts(&num(5)) {
        Err(LlmError::Request(m)) => assert_eq!(m, "Unsupported message content type: 5"),
        other => panic!("unexpected {:?}", other),
    }
    match message_parts(&JsonValue::Array(vec![text("a"), JsonValue::Bool(true)])) {
        Err(LlmError::Request(m)) => assert_eq!(m, "Unsupported message part content: true"),
        other => panic!("unexpected {:?}", other),
    }
}

#[test]
fn messages_become_contents_with_gemini_roles() {
    let messages = vec![
        Message::new(Role::User, "question".to_string()),
        Message::new(Role::Assistant, "answer".to_string()),
        Message::new(Role::System, "rules".to_string()),
    ];
    let contents = messages_to_contents(&messages).unwrap();
    assert_eq!(contents.len(), 3);
    assert_eq!(str_at(&contents[0], &["role"]), Some("user"));
    assert_eq!(str_at(&contents[1], &["role"]), Some("model"));
    assert_eq!(str_at(&contents[2], &["role"]), Some("user"));
    match contents[1].get("parts") {
        Some(JsonValue::Array(ps)) => assert_eq!(str_at(&ps[0], &["text"]), Some("answer")),
        _ => panic!("no parts"),
    }
    let bad = vec![Message { role: Role::User, content: JsonValue::Null }];
    assert!(matches!(messages_to_contents(&bad), Err(LlmError::Request(_))));
}

#[test]
fn tools_payload_declares_every_tool() {
    let tools = vec![
        Tool::new("a".into(), "first".into(), object(vec![("type", text("object"))])),
        Tool::new("b".into(), "second".into(), object(vec![])),
    ];
    let payload = build_tools_payload(&tools);
    match &payload {
        JsonValue::Array(items) => {
            assert_eq!(items.len(), 1);
            match items[0].get("functionDeclarations") {
                Some(JsonValue::Array(decls)) => {
                    assert_eq!(decls.len(), 2);
                    assert_eq!(str_at(&decls[0], &["name"]), Some("a"));
                    assert_eq!(str_at(&decls[0], &["description"]), Some("first"));
                    assert_eq!(str_at(&decls[0], &["parameters", "type"]), Some("object"));
                    assert_eq!(str_at(&decls[1], &["name"]), Some("b"));
                },
                _ => panic!("no declarations"),
            }
        },
        _ => panic!("not an array"),
    }
}

#[test]
fn request_body_has_what_the_chat_needs() {
    let contents = vec![object(vec![("role", text("user"))])];
    let body = request_body("be brief", &contents, None, None);
    assert_eq!(keys(&body), vec!["systemInstruction".to_string(), "contents".to_string()]);
    let tools = vec![Tool::new("a".into(), "d".into(), object(vec![]))];
    let body = request_body("be brief", &contents, Some(64), Some(&tools));
    assert_eq!(
        keys(&body),
        vec!["systemInstruction", "contents", "generationConfig", "tools", "toolConfig"]
            .into_iter()
            .map(String::from)
            .collect::<Vec<_>>()
    );
    assert_eq!(body.get("generationConfig").unwrap().get("maxOutputTokens").unwrap().as_u64(), Some(64));
    assert_eq!(str_at(&body, &["toolConfig", "functionCallingConfig", "mode"]), Some("AUTO"));
    match body.get("systemInstruction").unwrap().get("parts") {
        Some(JsonValue::Array(ps)) => assert_eq!(str_at(&ps[0], &["text"]), Some("be brief")),
        _ => panic!("no parts"),
    }
}

#[test]
fn generate_content_url_names_the_model() {
    assert_eq!(
        generate_content_url("gemini-2.5-flash"),
        "https://generativelanguage.googleapis.com/v1beta/models/gemini-2.5-flash:generateContent"
    );
}

fn response_with_parts(parts: Vec<JsonValue>) -> JsonValue {
    object(vec![
        ("candidates", JsonValue::Array(vec![object(vec![("content", object(vec![("parts", JsonValue::Array(parts))]))])])),
        (
            "usageMetadata",
            object(vec![("promptTokenCount", num(3)), ("candidatesTokenCount", num(4)), ("thoughtsTokenCount", num(5))]),
        ),
    ])
}

#[test]
fn parts_and_text_are_read_from_the_first_candidate() {
    let r = response_with_parts(vec![object(vec![("functionCall", object(vec![]))]), object(vec![("text", text("hello"))])]);
    let parts = extract_parts(&r);
    assert_eq!(parts.len(), 2);
    assert_eq!(extract_first_text(&parts), Some("hello".to_string()));
    assert!(extract_parts(&object(vec![])).is_empty());
    assert!(extract_parts(&object(vec![("candidates", JsonValue::Array(vec![]))])).is_empty());
    assert_eq!(extract_first_text(&vec![object(vec![("text", num(1))])]), None);
}

#[test]
fn usage_is_added_to_the_counter() {
    let mut counter = TokenCounter::new();
    update_token_counter_from_response(&response_with_parts(vec![]), "m", &mut counter);
    update_token_counter_from_response(&response_with_parts(vec![]), "m", &mut counter);
    let c = counter.get("m").unwrap();
    assert_eq!((c.prompt_tokens, c.output_tokens, c.reasoning_tokens), (6, 8, 10));
    update_token_counter_from_response(&object(vec![]), "other", &mut counter);
    assert!(counter.get("other").is_none());
    update_token_counter_from_response(&object(vec![("usageMetadata", object(vec![]))]), "other", &mut counter);
    let o = counter.get("other").unwrap();
    assert_eq!((o.prompt_tokens, o.output_tokens, o.reasoning_tokens), (0, 0, 0));
}

#[test]
fn a_response_with_text_ends_the_chat() {
    let mut counter = TokenCounter::new();
    let r = response_with_parts(vec![object(vec![("text", text("done"))])]);
    match handle_generate_response(&r, "m", &mut counter, true) {
        GenerateStep::Done(t) => assert_eq!(t, "done"),
        other => panic!("unexpected {:?}", other),
    }
    assert_eq!(counter.get("m").unwrap().prompt_tokens, 3);
}

#[test]
fn a_response_with_calls_runs_the_tools_only_when_offered() {
    let call = object(vec![("functionCall", object(vec![("name", text("lookup")), ("args", object(vec![]))]))]);
    let r = response_with_parts(vec![call, object(vec![("text", text("fallback"))])]);
    let mut counter = TokenCounter::new();
    match handle_generate_response(&r, "m", &mut counter, true) {
        GenerateStep::CallTools(calls) => {
            assert_eq!(calls.len(), 1);
            assert_eq!(calls[0].name, "lookup");
        },
        other => panic!("unexpected {:?}", other),
    }
    match handle_generate_response(&r, "m", &mut counter, false) {
        GenerateStep::Done(t) => assert_eq!(t, "fallback"),
        other => panic!("unexpected {:?}", other),
    }
}

#[test]
fn a_response_without_text_is_invalid_and_an_error_fails() {
    let mut counter = TokenCounter::new();
    let r = response_with_parts(vec![]);
    assert!(matches!(handle_generate_response(&r, "m", &mut counter, false), GenerateStep::Failed(LlmError::InvalidResponse)));
    let err = object(vec![("error", object(vec![("code", num(400))]))]);
    let mut fresh = TokenCounter::new();
    match handle_generate_response(&err, "m", &mut fresh, false) {
        GenerateStep::Failed(LlmError::Request(m)) => assert_eq!(m, "Gemini API error: {\"code\":400}"),
        other => panic!("unexpected {:?}", other),
    }
    assert!(fresh.get("m").is_none());
}

#[test]
fn tool_results_go_back_after_the_calls() {
    let calls = vec![
        PendingFunctionCall { name: "a".into(), args: object(vec![]), raw_part: object(vec![("functionCall", text("A"))]) },
        PendingFunctionCall { name: "b".into(), args: object(vec![]), raw_part: object(vec![("functionCall", text("B"))]) },
    ];
    let results = vec![num(1), num(2)];
    let parts = build_function_response_parts(&calls, &results);
    assert_eq!(parts.len(), 2);
    assert_eq!(str_at(&parts[1], &["functionResponse", "name"]), Some("b"));
    assert_eq!(parts[1].get("functionResponse").unwrap().get("response").unwrap().get("result").unwrap().as_u64(), Some(2));
    assert_eq!(build_function_response_parts(&calls, &vec![num(1)]).len(), 1);

    let mut contents = vec![object(vec![("role", text("user"))])];
    record_tool_round(&mut contents, &calls, &results);
    assert_eq!(contents.len(), 3);
    assert_eq!(str_at(&contents[1], &["role"]), Some("model"));
    assert_eq!(str_at(&contents[2], &["role"]), Some("user"));
    match contents[1].get("parts") {
        Some(JsonValue::Array(ps)) => {
            assert_eq!(ps.len(), 2);
            assert_eq!(str_at(&ps[0], &["functionCall"]), Some("A"));
        },
        _ => panic!("no parts"),
    }
}

#[test]
fn tools_are_found_by_name() {
    let tools = vec![Tool::new("a".into(), "".into(), JsonValue::Null), Tool::new("b".into(), "".into(), JsonValue::Null)];
    assert!(matches!(find_tool(&tools, "b"), Ok(1)));
    match find_tool(&tools, "c") {
        Err(LlmError::Request(m)) => assert_eq!(m, "Model requested unknown tool 'c'"),
        other => panic!("unexpected {:?}", other),
    }
}

#[test]
fn structured_request_strips_the_schema() {
    let schema = object(vec![("type", text("object")), ("additionalProperties", JsonValue::Bool(false))]);
    let body = structured_request_body("sys", "user text", schema);
    assert_eq!(str_at(&body, &["generationConfig", "responseMimeType"]), Some("application/json"));
    assert_eq!(keys(body.get("generationConfig").unwrap().get("responseSchema").unwrap()), vec!["type".to_string()]);
    match body.get("contents") {
        Some(JsonValue::Array(cs)) => assert_eq!(str_at(&cs[0], &["role"]), Some("user")),
        _ => panic!("no contents"),
    }
}

#[test]
fn structured_response_reads_error_usage_and_text() {
    let mut counter = TokenCounter::new();
    let failed = GenerateContentResponse {
        candidates: None,
        usage_metadata: None,
        error: Some(GeminiRestError { status: Some("INVALID_ARGUMENT".into()), message: None }),
    };
    match structured_response_text(&failed, "m", &mut counter) {
        Err(LlmError::Request(m)) => assert_eq!(m, "INVALID_ARGUMENT: "),
        other => panic!("unexpected {:?}", other),
    }
    let ok = GenerateContentResponse {
        candidates: Some(vec![Candidate {
            content: Some(Content {
                parts: Some(vec![Part { text: Some("{}".into()), function_call: None, thought_signature: None }]),
            }),
        }]),
        usage_metadata: Some(UsageMetadata { prompt_token_count: Some(2), candidates_token_count: None, thoughts_token_count: Some(1) }),
        error: None,
    };
    assert_eq!(structured_response_text(&ok, "m", &mut counter).unwrap(), "{}");
    let c = counter.get("m").unwrap();
    assert_eq!((c.prompt_tokens, c.output_tokens, c.reasoning_tokens), (2, 0, 1));
    let empty = GenerateContentResponse { candidates: Some(vec![]), usage_metadata: None, error: None };
    assert!(matches!(structured_response_text(&empty, "m", &mut counter), Err(LlmError::InvalidResponse)));
}

#[test]
fn gemini_refuses_what_it_does_not_serve() {
    assert!(gemini_refusal(AdapterCall::Generate).is_none());
    assert!(matches!(gemini_refusal(AdapterCall::CompletionCall), Some(LlmError::Request(ref m)) if m == "Gemini completion call not implemented"));
    assert!(matches!(check_chat_request(true), Err(LlmError::MissingLogprobs)));
    assert!(check_chat_request(false).is_ok());
}

#[test]
fn gemini_models_by_kind() {
    let c = GeminiConfig::default();
    assert_eq!(c.get_model(true, true, true), "gemini-3-pro-preview");
    assert_eq!(c.get_model(true, false, true), "gemini-2.5-flash");
    assert_eq!(c.get_model(true, false, false), "gemini-2.5-flash-lite");
    assert_eq!(c.get_model(false, false, false), "gemini-2.5-flash");
    assert_eq!(c.http_timeout_seconds, 600);
}
