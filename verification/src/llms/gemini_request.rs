//! What the Gemini adapter sends: message contents as Gemini parts, the tool
//! declarations, and the request bodies of `generateContent`.
use vstd::prelude::*;

use crate::json_text::{show_json, shown_json};
use crate::json::{
    arr1, clone_values, entry_models_of, lemma_models_of, lemma_models_push, models_of, obj1, obj2,
    push_entry, text_value, JsonModel, JsonNumber, JsonValue, NumberModel,
};
use crate::keyed::{first_index_where, lemma_first_index_where, lemma_first_index_where_unique};
use crate::llms::base::{LlmError, Message, Role, Tool};
use crate::text::concat_str;

verus! {

/// The part `{"text": t}`.
pub open spec fn text_part(t: Seq<char>) -> JsonModel {
    JsonModel::Object(seq![("text"@, JsonModel::Str(t))])
}

/// The part that one piece of message content becomes: text is wrapped as a
/// text part, an object is taken as it is, anything else has none.
pub open spec fn part_of(item: JsonModel) -> Option<JsonModel> {
    match item {
        JsonModel::Str(t) => Some(text_part(t)),
        JsonModel::Object(_) => Some(item),
        _ => None,
    }
}

/// The piece of content that has no part.
pub open spec fn no_part() -> spec_fn(JsonModel) -> bool {
    |x: JsonModel| part_of(x) is None
}

/// The parts of content pieces that all have one.
pub open spec fn parts_of(items: Seq<JsonModel>) -> Seq<JsonModel> {
    items.map_values(|x: JsonModel| part_of(x)->0)
}

/// The Gemini parts of a message's content, or the text of the error: text
/// and an object make one part; an array makes one part per element, each
/// text or an object.
pub open spec fn message_parts_spec(content: JsonModel) -> Result<Seq<JsonModel>, Seq<char>> {
    match content {
        JsonModel::Str(t) => Ok(seq![text_part(t)]),
        JsonModel::Object(_) => Ok(seq![content]),
        JsonModel::Array(items) => {
            let i = first_index_where(items, no_part());
            if i < items.len() {
                Err("Unsupported message part content: "@ + shown_json(items[i]))
            } else {
                Ok(parts_of(items))
            }
        },
        _ => Err("Unsupported message content type: "@ + shown_json(content)),
    }
}

/// A `Request` error carrying `m`.
pub open spec fn is_request_error(e: LlmError, m: Seq<char>) -> bool {
    e matches LlmError::Request(t) && t@ == m
}

/// Every part that message content becomes is an object, as Gemini wants.
pub proof fn lemma_message_parts_are_objects(content: JsonModel)
    ensures
        message_parts_spec(content) matches Ok(ps) ==> forall|i: int| 0 <= i < ps.len() ==> (#[trigger] ps[i]) is Object,
{
    match content {
        JsonModel::Array(items) => {
            let i = first_index_where(items, no_part());
            lemma_first_index_where(items, no_part());
            if i >= items.len() {
                assert forall|j: int| 0 <= j < items.len() implies (#[trigger] parts_of(items)[j]) is Object by {
                    assert(!no_part()(items[j]));
                }
            }
        },
        _ => {},
    }
}

/// Turns a message's content into Gemini parts.
#[verifier::loop_isolation(false)]
pub fn message_parts(content: &JsonValue) -> (r: Result<Vec<JsonValue>, LlmError>)
    ensures
        match r {
            Ok(v) => message_parts_spec(content@) == Ok::<Seq<JsonModel>, Seq<char>>(models_of(v@)),
            Err(e) => message_parts_spec(content@) matches Err(m) && is_request_error(e, m),
        },
{
    match content {
        JsonValue::String(t) => {
            let p = obj1("text", text_value(t.as_str()));
            Ok(one_value(p))
        },
        JsonValue::Object(_) => Ok(one_value(content.deep_clone())),
        JsonValue::Array(items) => {
            let ghost ms = models_of(items@);
            proof {
                lemma_models_of(items@);
            }
            let mut parts: Vec<JsonValue> = Vec::new();
            let n = items.len();
            for i in 0..n
                invariant
                    n == items@.len(),
                    ms == models_of(items@),
                    ms.len() == n,
                    forall|j: int| 0 <= j < i ==> !(#[trigger] no_part()(ms[j])),
                    models_of(parts@) == parts_of(ms.take(i as int)),
            {
                let ghost before = parts@;
                match &items[i] {
                    JsonValue::String(t) => {
                        parts.push(obj1("text", text_value(t.as_str())));
                    },
                    JsonValue::Object(_) => {
                        parts.push(items[i].deep_clone());
                    },
                    other => {
                        proof {
                            assert(no_part()(ms[i as int]));
                            lemma_first_index_where_unique(ms, no_part(), i as int);
                        }
                        let m = concat_str("Unsupported message part content: ", show_json(other).as_str());
                        return Err(LlmError::Request(m));
                    },
                }
                proof {
                    lemma_models_push(before, parts@[before.len() as int]);
                    assert(parts@ == before.push(parts@[before.len() as int]));
                    assert(parts_of(ms.take(i + 1)) =~= parts_of(ms.take(i as int)).push(
                        part_of(ms[i as int])->0,
                    ));
                }
            }
            proof {
                assert(ms.take(n as int) =~= ms);
                lemma_first_index_where_unique(ms, no_part(), n as int);
            }
            Ok(parts)
        },
        _ => {
            let m = concat_str("Unsupported message content type: ", show_json(content).as_str());
            Err(LlmError::Request(m))
        },
    }
}

/// A vector holding one value.
fn one_value(v: JsonValue) -> (r: Vec<JsonValue>)
    ensures
        models_of(r@) == seq![v@],
{
    let mut out: Vec<JsonValue> = Vec::new();
    out.push(v);
    proof {
        lemma_models_push(Seq::empty(), out@[0]);
        assert(out@ == Seq::<JsonValue>::empty().push(out@[0]));
    }
    out
}

/// The role Gemini knows a message by: `model` for the assistant, `user` for
/// everything else.
pub open spec fn role_name(role: Role) -> Seq<char> {
    match role {
        Role::Assistant => "model"@,
        _ => "user"@,
    }
}

/// One entry of `contents`: a role and its parts.
pub open spec fn content_entry(role: Seq<char>, parts: Seq<JsonModel>) -> JsonModel {
    JsonModel::Object(seq![("role"@, JsonModel::Str(role)), ("parts"@, JsonModel::Array(parts))])
}

/// The message whose content has no Gemini parts.
pub open spec fn unsendable() -> spec_fn(Message) -> bool {
    |m: Message| message_parts_spec(m.content@) is Err
}

/// The `contents` of a request for the messages, or the text of the error of
/// the first message whose content cannot be sent.
pub open spec fn contents_spec(messages: Seq<Message>) -> Result<Seq<JsonModel>, Seq<char>> {
    let i = first_index_where(messages, unsendable());
    if i < messages.len() {
        Err(message_parts_spec(messages[i].content@)->Err_0)
    } else {
        Ok(
            messages.map_values(
                |m: Message| content_entry(role_name(m.role), message_parts_spec(m.content@)->Ok_0),
            ),
        )
    }
}

/// The role name as a string.
fn role_text(role: Role) -> (r: String)
    ensures
        r@ == role_name(role),
{
    match role {
        Role::Assistant => String::from_str("model"),
        _ => String::from_str("user"),
    }
}

/// Turns chat messages into the `contents` of a Gemini request.
#[verifier::loop_isolation(false)]
pub fn messages_to_contents(messages: &Vec<Message>) -> (r: Result<Vec<JsonValue>, LlmError>)
    ensures
        match r {
            Ok(v) => contents_spec(messages@) == Ok::<Seq<JsonModel>, Seq<char>>(models_of(v@)),
            Err(e) => contents_spec(messages@) matches Err(m) && is_request_error(e, m),
        },
{
    let ghost ms = messages@;
    let ghost entries = ms.map_values(
        |m: Message| content_entry(role_name(m.role), message_parts_spec(m.content@)->Ok_0),
    );
    let mut out: Vec<JsonValue> = Vec::new();
    let n = messages.len();
    for i in 0..n
        invariant
            n == ms.len(),
            ms == messages@,
            forall|j: int| 0 <= j < i ==> !(#[trigger] unsendable()(ms[j])),
            models_of(out@) == entries.take(i as int),
    {
        match message_parts(&messages[i].content) {
            Ok(parts) => {
                let role = role_text(messages[i].role);
                let entry = obj2("role", JsonValue::String(role), "parts", JsonValue::Array(parts));
                let ghost before = out@;
                out.push(entry);
                proof {
                    lemma_models_push(before, out@[before.len() as int]);
                    assert(out@ == before.push(out@[before.len() as int]));
                    assert(entries.take(i + 1) =~= entries.take(i as int).push(entries[i as int]));
                }
            },
            Err(e) => {
                proof {
                    assert(unsendable()(ms[i as int]));
                    lemma_first_index_where_unique(ms, unsendable(), i as int);
                }
                return Err(e);
            },
        }
    }
    proof {
        assert(entries.take(n as int) =~= entries);
        lemma_first_index_where_unique(ms, unsendable(), n as int);
    }
    Ok(out)
}

/// The declaration Gemini gets of one tool.
pub open spec fn tool_declaration(t: Tool) -> JsonModel {
    JsonModel::Object(
        seq![
            ("name"@, JsonModel::Str(t.name@)),
            ("description"@, JsonModel::Str(t.description@)),
            ("parameters"@, t.parameters@),
        ],
    )
}

/// The `tools` of a request: one entry holding all the declarations.
pub open spec fn tools_payload_spec(tools: Seq<Tool>) -> JsonModel {
    JsonModel::Array(
        seq![
            JsonModel::Object(
                seq![("functionDeclarations"@, JsonModel::Array(tools.map_values(|t: Tool| tool_declaration(t))))],
            ),
        ],
    )
}

/// The `tools` entry of a request that offers `tools` to the model.
pub fn build_tools_payload(tools: &Vec<Tool>) -> (r: JsonValue)
    ensures
        r@ == tools_payload_spec(tools@),
{
    let ghost decls = tools@.map_values(|t: Tool| tool_declaration(t));
    let mut out: Vec<JsonValue> = Vec::new();
    let n = tools.len();
    for i in 0..n
        invariant
            n == tools@.len(),
            decls == tools@.map_values(|t: Tool| tool_declaration(t)),
            models_of(out@) == decls.take(i as int),
    {
        let t = &tools[i];
        let d = crate::json::obj3(
            "name",
            text_value(t.name.as_str()),
            "description",
            text_value(t.description.as_str()),
            "parameters",
            t.parameters.deep_clone(),
        );
        let ghost before = out@;
        out.push(d);
        proof {
            lemma_models_push(before, out@[before.len() as int]);
            assert(out@ == before.push(out@[before.len() as int]));
            assert(decls.take(i + 1) =~= decls.take(i as int).push(decls[i as int]));
        }
    }
    proof {
        assert(decls.take(n as int) =~= decls);
    }
    arr1(obj1("functionDeclarations", JsonValue::Array(out)))
}

/// The address of `generateContent` for a model.
pub open spec fn generate_content_url_spec(model: Seq<char>) -> Seq<char> {
    "https://generativelanguage.googleapis.com/v1beta/models/"@ + model + ":generateContent"@
}

pub fn generate_content_url(model: &str) -> (r: String)
    ensures
        r@ == generate_content_url_spec(model@),
{
    let mut s = String::from_str("https://generativelanguage.googleapis.com/v1beta/models/");
    s.append(model);
    s.append(":generateContent");
    s
}

/// `{"parts": [{"text": t}]}`, the system instruction of a request.
pub open spec fn system_instruction_spec(t: Seq<char>) -> JsonModel {
    JsonModel::Object(seq![("parts"@, JsonModel::Array(seq![text_part(t)]))])
}

fn system_instruction(t: &str) -> (r: JsonValue)
    ensures
        r@ == system_instruction_spec(t@),
{
    obj1("parts", arr1(obj1("text", text_value(t))))
}

/// The body of a chat request: the system instruction and the contents, then
/// `generationConfig` with the output limit when there is one, then the tools
/// with automatic function calling when tools are offered.
pub open spec fn request_body_spec(
    system_instruction: Seq<char>,
    contents: Seq<JsonModel>,
    max_tokens: Option<u32>,
    tools: Option<Seq<Tool>>,
) -> JsonModel {
    let base = seq![
        ("systemInstruction"@, system_instruction_spec(system_instruction)),
        ("contents"@, JsonModel::Array(contents)),
    ];
    let with_config = match max_tokens {
        Some(n) => base.push(
            (
                "generationConfig"@,
                JsonModel::Object(seq![("maxOutputTokens"@, JsonModel::Number(NumberModel::PosInt(n as u64)))]),
            ),
        ),
        None => base,
    };
    let with_tools = match tools {
        Some(ts) => with_config.push(("tools"@, tools_payload_spec(ts))).push(
            (
                "toolConfig"@,
                JsonModel::Object(
                    seq![("functionCallingConfig"@, JsonModel::Object(seq![("mode"@, JsonModel::Str("AUTO"@))]))],
                ),
            ),
        ),
        None => with_config,
    };
    JsonModel::Object(with_tools)
}

/// The body of one `generateContent` call of a chat.
pub fn request_body(
    system_instruction_text: &str,
    contents: &Vec<JsonValue>,
    max_tokens: Option<u32>,
    tools: Option<&Vec<Tool>>,
) -> (r: JsonValue)
    ensures
        r@ == request_body_spec(
            system_instruction_text@,
            models_of(contents@),
            max_tokens,
            match tools {
                Some(ts) => Some(ts@),
                None => None,
            },
        ),
{
    let mut entries: Vec<(String, JsonValue)> = Vec::new();
    push_entry(&mut entries, "systemInstruction", system_instruction(system_instruction_text));
    push_entry(&mut entries, "contents", JsonValue::Array(clone_values(contents)));
    assert(entry_models_of(entries@) =~= seq![
        ("systemInstruction"@, system_instruction_spec(system_instruction_text@)),
        ("contents"@, JsonModel::Array(models_of(contents@))),
    ]);
    match max_tokens {
        Some(n) => {
            let limit = JsonValue::Number(JsonNumber::PosInt(n as u64));
            push_entry(&mut entries, "generationConfig", obj1("maxOutputTokens", limit));
        },
        None => {},
    }
    match tools {
        Some(ts) => {
            push_entry(&mut entries, "tools", build_tools_payload(ts));
            let mode = obj1("mode", text_value("AUTO"));
            push_entry(&mut entries, "toolConfig", obj1("functionCallingConfig", mode));
        },
        None => {},
    }
    JsonValue::Object(entries)
}

} // verus!
