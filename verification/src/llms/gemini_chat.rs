//! The decisions of a Gemini chat: after each response, whether it is done,
//! failed, or runs the tools the model asked for and sends their results back;
//! and the structured-output request with its reading.
use vstd::prelude::*;

use crate::json_text::{show_json, shown_json};
use crate::json::{
    lemma_models_of, lemma_models_push, models_of, obj1, obj2, obj3, text_value, JsonModel,
    JsonValue,
};
use crate::keyed::{first_index_where, lemma_first_index_where_unique};
use crate::llms::base::{LlmError, Tool};
use crate::llms::openai::AdapterCall;
use crate::llms::gemini::{strip_additional_properties, strip_spec};
use crate::llms::gemini_request::{
    content_entry, is_request_error, system_instruction_spec, text_part,
};
use crate::llms::gemini_response::{
    call_requests, call_views, calls_fit, can_record_usage, collect_function_calls,
    extract_first_text, extract_parts, first_text_spec, records_usage, response_parts,
    update_token_counter_from_response, PendingFunctionCall,
};
use crate::llms::token_counter::{can_add, is_addition, TokenCounter};
use crate::text::concat_str;

verus! {

/// The tool that has a name.
pub open spec fn named(name: Seq<char>) -> spec_fn(Tool) -> bool {
    |t: Tool| t.name@ == name
}

/// Finds the tool the model asked for by name: the first one with that name,
/// or the error for an unknown tool.
#[verifier::loop_isolation(false)]
pub fn find_tool(tools: &Vec<Tool>, name: &str) -> (r: Result<usize, LlmError>)
    ensures
        match r {
            Ok(i) => i == first_index_where(tools@, named(name@)) && i < tools@.len(),
            Err(e) => first_index_where(tools@, named(name@)) == tools@.len() && is_request_error(
                e,
                "Model requested unknown tool '"@ + name@ + "'"@,
            ),
        },
{
    let n = tools.len();
    for i in 0..n
        invariant
            n == tools@.len(),
            forall|j: int| 0 <= j < i ==> !(#[trigger] named(name@)(tools@[j])),
    {
        if crate::text::str_eq(tools[i].name.as_str(), name) {
            proof {
                lemma_first_index_where_unique(tools@, named(name@), i as int);
            }
            return Ok(i);
        }
    }
    proof {
        lemma_first_index_where_unique(tools@, named(name@), n as int);
    }
    let mut m = String::from_str("Model requested unknown tool '");
    m.append(name);
    m.append("'");
    Err(LlmError::Request(m))
}

/// The part that gives a tool's result back to the model.
pub open spec fn function_response_part(name: Seq<char>, result: JsonModel) -> JsonModel {
    JsonModel::Object(
        seq![
            (
                "functionResponse"@,
                JsonModel::Object(
                    seq![
                        ("name"@, JsonModel::Str(name)),
                        ("response"@, JsonModel::Object(seq![("result"@, result)])),
                    ],
                ),
            ),
        ],
    )
}

/// The result parts for the calls, call by call, as far as both lists go.
pub open spec fn function_response_parts_spec(
    calls: Seq<(Seq<char>, JsonModel, JsonModel)>,
    results: Seq<JsonModel>,
) -> Seq<JsonModel> {
    let n = if calls.len() <= results.len() {
        calls.len()
    } else {
        results.len()
    };
    Seq::new(n, |i: int| function_response_part(calls[i].0, results[i]))
}

/// The parts that give the tools' results back, one per call.
pub fn build_function_response_parts(calls: &Vec<PendingFunctionCall>, results: &Vec<JsonValue>) -> (r: Vec<JsonValue>)
    ensures
        models_of(r@) == function_response_parts_spec(call_views(calls@), models_of(results@)),
{
    proof {
        lemma_models_of(results@);
    }
    let n = if calls.len() <= results.len() {
        calls.len()
    } else {
        results.len()
    };
    let ghost target = function_response_parts_spec(call_views(calls@), models_of(results@));
    let mut out: Vec<JsonValue> = Vec::new();
    for i in 0..n
        invariant
            n == target.len(),
            n <= calls@.len(),
            n <= results@.len(),
            target == function_response_parts_spec(call_views(calls@), models_of(results@)),
            models_of(results@).len() == results@.len(),
            forall|j: int| 0 <= j < results@.len() ==> #[trigger] models_of(results@)[j] == results@[j]@,
            models_of(out@) == target.take(i as int),
    {
        let inner = obj2(
            "name",
            text_value(calls[i].name.as_str()),
            "response",
            obj1("result", results[i].deep_clone()),
        );
        let part = obj1("functionResponse", inner);
        let ghost before = out@;
        out.push(part);
        proof {
            lemma_models_push(before, out@[before.len() as int]);
            assert(out@ == before.push(out@[before.len() as int]));
            assert(call_views(calls@)[i as int].0 == calls@[i as int].name@);
            assert(target.take(i + 1) =~= target.take(i as int).push(target[i as int]));
        }
    }
    proof {
        assert(target.take(n as int) =~= target);
    }
    out
}

/// The raw parts of the calls, in order.
pub open spec fn raw_parts(calls: Seq<(Seq<char>, JsonModel, JsonModel)>) -> Seq<JsonModel> {
    calls.map_values(|c: (Seq<char>, JsonModel, JsonModel)| c.2)
}

/// Appends one round of tool calls to a chat: the model's calling parts, then
/// the user's result parts.
pub fn record_tool_round(contents: &mut Vec<JsonValue>, calls: &Vec<PendingFunctionCall>, results: &Vec<JsonValue>)
    ensures
        models_of(final(contents)@) == models_of(old(contents)@).push(
            content_entry("model"@, raw_parts(call_views(calls@))),
        ).push(content_entry("user"@, function_response_parts_spec(call_views(calls@), models_of(results@)))),
{
    let mut model_parts: Vec<JsonValue> = Vec::new();
    let n = calls.len();
    let ghost target = raw_parts(call_views(calls@));
    for i in 0..n
        invariant
            n == calls@.len(),
            target == raw_parts(call_views(calls@)),
            models_of(model_parts@) == target.take(i as int),
    {
        let ghost before = model_parts@;
        model_parts.push(calls[i].raw_part.deep_clone());
        proof {
            lemma_models_push(before, model_parts@[before.len() as int]);
            assert(model_parts@ == before.push(model_parts@[before.len() as int]));
            assert(target.take(i + 1) =~= target.take(i as int).push(target[i as int]));
        }
    }
    proof {
        assert(target.take(n as int) =~= target);
    }
    let response_parts = build_function_response_parts(calls, results);
    let model_entry = obj2("role", text_value("model"), "parts", JsonValue::Array(model_parts));
    let user_entry = obj2("role", text_value("user"), "parts", JsonValue::Array(response_parts));
    let ghost c0 = contents@;
    contents.push(model_entry);
    proof {
        lemma_models_push(c0, contents@[c0.len() as int]);
        assert(contents@ == c0.push(contents@[c0.len() as int]));
    }
    let ghost c1 = contents@;
    contents.push(user_entry);
    proof {
        lemma_models_push(c1, contents@[c1.len() as int]);
        assert(contents@ == c1.push(contents@[c1.len() as int]));
    }
}

/// What a chat does after a response: answer with text, fail, or run the
/// tools the model asked for.
#[derive(Debug)]
pub enum GenerateStep {
    Done(String),
    Failed(LlmError),
    CallTools(Vec<PendingFunctionCall>),
}

/// The text of the error a response reports.
pub open spec fn api_error_text(err: JsonModel) -> Seq<char> {
    "Gemini API error: "@ + shown_json(err)
}

/// Reads one response of a chat. A response that reports an error fails the
/// chat; otherwise its token usage is counted, and the chat ends with the
/// first text part unless the model asked for calls and tools are offered, in
/// which case the calls are run next.
pub fn handle_generate_response(
    response: &JsonValue,
    model: &str,
    token_counter: &mut TokenCounter,
    tools_offered: bool,
) -> (r: GenerateStep)
    requires
        response@.get("error"@) is None ==> can_record_usage(*old(token_counter), response@, model@),
    ensures
        match response@.get("error"@) {
            Some(err) => {
                &&& r matches GenerateStep::Failed(e) && is_request_error(e, api_error_text(err))
                &&& final(token_counter).entries() == old(token_counter).entries()
            },
            None => {
                let parts = response_parts(response@);
                &&& records_usage(*old(token_counter), *final(token_counter), response@, model@)
                &&& if call_requests(parts).len() == 0 || !tools_offered {
                    match first_text_spec(parts) {
                        Some(t) => r matches GenerateStep::Done(s) && s@ == t,
                        None => r matches GenerateStep::Failed(LlmError::InvalidResponse),
                    }
                } else {
                    &&& r matches GenerateStep::CallTools(cs)
                    &&& calls_fit(parts, call_views(cs@))
                }
            },
        },
{
    match response.get("error") {
        Some(err) => {
            let m = concat_str("Gemini API error: ", show_json(err).as_str());
            return GenerateStep::Failed(LlmError::Request(m));
        },
        None => {},
    }
    update_token_counter_from_response(response, model, token_counter);
    let parts = extract_parts(response);
    let calls = collect_function_calls(&parts);
    if calls.len() == 0 || !tools_offered {
        match extract_first_text(&parts) {
            Some(t) => GenerateStep::Done(t),
            None => GenerateStep::Failed(LlmError::InvalidResponse),
        }
    } else {
        GenerateStep::CallTools(calls)
    }
}

/// The body of a structured-output request: the system instruction, one user
/// message, and a JSON response constrained by `schema` without its
/// `additionalProperties` entries.
pub open spec fn structured_request_body_spec(system_instruction: Seq<char>, user_text: Seq<char>, schema: JsonModel) -> JsonModel {
    JsonModel::Object(
        seq![
            ("systemInstruction"@, system_instruction_spec(system_instruction)),
            ("contents"@, JsonModel::Array(seq![content_entry("user"@, seq![text_part(user_text)])])),
            (
                "generationConfig"@,
                JsonModel::Object(
                    seq![
                        ("responseMimeType"@, JsonModel::Str("application/json"@)),
                        ("responseSchema"@, strip_spec(schema)),
                    ],
                ),
            ),
        ],
    )
}

pub fn structured_request_body(system_instruction: &str, user_text: &str, response_schema: JsonValue) -> (r: JsonValue)
    ensures
        r@ == structured_request_body_spec(system_instruction@, user_text@, response_schema@),
{
    let schema = strip_additional_properties(response_schema);
    let sys = obj1("parts", crate::json::arr1(obj1("text", text_value(system_instruction))));
    let user_parts = crate::json::arr1(obj1("text", text_value(user_text)));
    let contents = crate::json::arr1(obj2("role", text_value("user"), "parts", user_parts));
    let config = obj2("responseMimeType", text_value("application/json"), "responseSchema", schema);
    obj3("systemInstruction", sys, "contents", contents, "generationConfig", config)
}

/// A `generateContent` response, as far as the structured output reads it.
#[derive(Debug)]
pub struct GenerateContentResponse {
    pub candidates: Option<Vec<Candidate>>,
    pub usage_metadata: Option<UsageMetadata>,
    pub error: Option<GeminiRestError>,
}

#[derive(Debug)]
pub struct Candidate {
    pub content: Option<Content>,
}

#[derive(Debug)]
pub struct Content {
    pub parts: Option<Vec<Part>>,
}

#[derive(Debug)]
pub struct Part {
    pub text: Option<String>,
    pub function_call: Option<FunctionCall>,
    pub thought_signature: Option<String>,
}

#[derive(Debug)]
pub struct FunctionCall {
    pub name: Option<String>,
    pub id: Option<String>,
    pub args: Option<JsonValue>,
}

#[derive(Debug)]
pub struct UsageMetadata {
    pub prompt_token_count: Option<u64>,
    pub candidates_token_count: Option<u64>,
    pub thoughts_token_count: Option<u64>,
}

#[derive(Debug)]
pub struct GeminiRestError {
    pub status: Option<String>,
    pub message: Option<String>,
}

/// The part that has text.
pub open spec fn part_has_text() -> spec_fn(Part) -> bool {
    |p: Part| p.text is Some
}

/// The text of the first part that has some.
pub open spec fn first_part_text_spec(parts: Seq<Part>) -> Option<Seq<char>> {
    let i = first_index_where(parts, part_has_text());
    if i < parts.len() {
        Some(parts[i].text->0@)
    } else {
        None
    }
}

/// The text of the first part that has some, even after function-call parts.
#[verifier::loop_isolation(false)]
pub fn first_part_text(parts: &Vec<Part>) -> (r: Option<String>)
    ensures
        match r {
            Some(s) => first_part_text_spec(parts@) == Some(s@),
            None => first_part_text_spec(parts@) is None,
        },
{
    let n = parts.len();
    for i in 0..n
        invariant
            n == parts@.len(),
            forall|j: int| 0 <= j < i ==> !(#[trigger] part_has_text()(parts@[j])),
    {
        match &parts[i].text {
            Some(t) => {
                proof {
                    lemma_first_index_where_unique(parts@, part_has_text(), i as int);
                }
                return Some(String::from_str(t.as_str()));
            },
            None => {},
        }
    }
    proof {
        lemma_first_index_where_unique(parts@, part_has_text(), n as int);
    }
    None
}

/// The text of a structured response: of the first part with text of the
/// first candidate's content.
pub open spec fn structured_text_spec(resp: GenerateContentResponse) -> Option<Seq<char>> {
    match resp.candidates {
        Some(cs) => if cs.len() > 0 {
            match cs[0].content {
                Some(c) => match c.parts {
                    Some(ps) => first_part_text_spec(ps@),
                    None => None,
                },
                None => None,
            }
        } else {
            None
        },
        None => None,
    }
}

/// A count of the usage metadata, zero when missing.
pub open spec fn count_or_zero(c: Option<u64>) -> u64 {
    match c {
        Some(n) => n,
        None => 0,
    }
}

/// The text of a reported error: its status and its message.
pub open spec fn rest_error_text(err: GeminiRestError) -> Seq<char> {
    (match err.status {
        Some(s) => s@,
        None => Seq::empty(),
    }) + ": "@ + (match err.message {
        Some(m) => m@,
        None => Seq::empty(),
    })
}

/// Whether the usage of a response can be added to `model`'s totals.
pub open spec fn can_record_metadata(c: TokenCounter, meta: Option<UsageMetadata>, model: Seq<char>) -> bool {
    match meta {
        Some(m) => can_add(
            c,
            model,
            count_or_zero(m.prompt_token_count),
            count_or_zero(m.candidates_token_count),
            count_or_zero(m.thoughts_token_count),
        ),
        None => true,
    }
}

/// Reads a structured response: its reported error, else its usage counted
/// and the JSON text of its first text part.
pub fn structured_response_text(
    response: &GenerateContentResponse,
    model: &str,
    token_counter: &mut TokenCounter,
) -> (r: Result<String, LlmError>)
    requires
        response.error is None ==> can_record_metadata(*old(token_counter), response.usage_metadata, model@),
    ensures
        match response.error {
            Some(err) => {
                &&& r matches Err(e) && is_request_error(e, rest_error_text(err))
                &&& final(token_counter).entries() == old(token_counter).entries()
            },
            None => {
                &&& match response.usage_metadata {
                    Some(m) => is_addition(
                        *old(token_counter),
                        *final(token_counter),
                        model@,
                        count_or_zero(m.prompt_token_count),
                        count_or_zero(m.candidates_token_count),
                        count_or_zero(m.thoughts_token_count),
                    ),
                    None => final(token_counter).entries() == old(token_counter).entries(),
                }
                &&& match structured_text_spec(*response) {
                    Some(t) => r matches Ok(s) && s@ == t,
                    None => r matches Err(LlmError::InvalidResponse),
                }
            },
        },
{
    match &response.error {
        Some(err) => {
            let mut m = String::new();
            match &err.status {
                Some(s) => m.append(s.as_str()),
                None => {},
            }
            m.append(": ");
            match &err.message {
                Some(t) => m.append(t.as_str()),
                None => {},
            }
            return Err(LlmError::Request(m));
        },
        None => {},
    }
    match &response.usage_metadata {
        Some(meta) => {
            let p = match meta.prompt_token_count {
                Some(n) => n,
                None => 0,
            };
            let o = match meta.candidates_token_count {
                Some(n) => n,
                None => 0,
            };
            let t = match meta.thoughts_token_count {
                Some(n) => n,
                None => 0,
            };
            token_counter.add_counts(model, p, o, t);
        },
        None => {},
    }
    match &response.candidates {
        Some(cs) => {
            if cs.len() == 0 {
                return Err(LlmError::InvalidResponse);
            }
            match &cs[0].content {
                Some(c) => match &c.parts {
                    Some(ps) => match first_part_text(ps) {
                        Some(t) => Ok(t),
                        None => Err(LlmError::InvalidResponse),
                    },
                    None => Err(LlmError::InvalidResponse),
                },
                None => Err(LlmError::InvalidResponse),
            }
        },
        None => Err(LlmError::InvalidResponse),
    }
}

/// The error text of the Gemini adapter for the requests it does not serve;
/// nothing for a chat, which it serves.
pub open spec fn gemini_refusal_text(call: AdapterCall) -> Option<Seq<char>> {
    match call {
        AdapterCall::Generate => None,
        AdapterCall::GenerateTyped => Some("Use GeminiLLM::generate_structured_json with an explicit responseSchema"@),
        AdapterCall::CompletionCall => Some("Gemini completion call not implemented"@),
        AdapterCall::VideoGeneration => Some("Gemini video generation not implemented"@),
    }
}

/// The error for a request the Gemini adapter does not serve.
pub fn gemini_refusal(call: AdapterCall) -> (r: Option<LlmError>)
    ensures
        match gemini_refusal_text(call) {
            Some(t) => r matches Some(e) && is_request_error(e, t),
            None => r is None,
        },
{
    let m = match call {
        AdapterCall::Generate => {
            return None;
        },
        AdapterCall::GenerateTyped => "Use GeminiLLM::generate_structured_json with an explicit responseSchema",
        AdapterCall::CompletionCall => "Gemini completion call not implemented",
        AdapterCall::VideoGeneration => "Gemini video generation not implemented",
    };
    Some(LlmError::Request(String::from_str(m)))
}

/// A chat that asks for log probabilities cannot be served: Gemini gives none.
pub fn check_chat_request(return_logprobs: bool) -> (r: Result<(), LlmError>)
    ensures
        return_logprobs ==> r matches Err(LlmError::MissingLogprobs),
        !return_logprobs ==> r is Ok,
{
    if return_logprobs {
        Err(LlmError::MissingLogprobs)
    } else {
        Ok(())
    }
}

} // verus!
