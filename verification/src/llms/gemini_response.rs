//! What the Gemini adapter reads back: the parts of a response, its text, its
//! token usage and the function calls it asks for, and the decision of what a
//! chat does next.
use vstd::prelude::*;

use crate::bindings::{is_uuid_text, new_call_id};
use crate::json::{
    clone_entries, clone_values, entry_models_of, lemma_entry_models_of, lemma_models_of,
    model_insert, models_of, JsonModel, JsonValue, NumberModel,
};
use crate::keyed::{find_key, first_index_where, lemma_first_index_where_unique};
use crate::llms::token_counter::{can_add, is_addition, TokenCounter};
use crate::text::views_of;

verus! {

/// The parts of the first candidate's content; none when the response has no
/// such array.
pub open spec fn response_parts(response: JsonModel) -> Seq<JsonModel> {
    match response.get("candidates"@) {
        Some(JsonModel::Array(cs)) => if cs.len() > 0 {
            match cs[0].get("content"@) {
                Some(c) => match c.get("parts"@) {
                    Some(JsonModel::Array(ps)) => ps,
                    _ => Seq::empty(),
                },
                None => Seq::empty(),
            }
        } else {
            Seq::empty()
        },
        _ => Seq::empty(),
    }
}

/// The parts of the first candidate of a `generateContent` response.
pub fn extract_parts(response: &JsonValue) -> (r: Vec<JsonValue>)
    ensures
        models_of(r@) == response_parts(response@),
{
    match response.get("candidates") {
        Some(JsonValue::Array(cs)) => {
            proof {
                lemma_models_of(cs@);
            }
            if cs.len() > 0 {
                match cs[0].get("content") {
                    Some(c) => match c.get("parts") {
                        Some(JsonValue::Array(ps)) => clone_values(ps),
                        _ => Vec::new(),
                    },
                    None => Vec::new(),
                }
            } else {
                Vec::new()
            }
        },
        _ => Vec::new(),
    }
}

/// The part whose `text` is a string.
pub open spec fn has_text() -> spec_fn(JsonModel) -> bool {
    |p: JsonModel| p.get("text"@) matches Some(JsonModel::Str(_))
}

/// The text of the first part that has one.
pub open spec fn first_text_spec(parts: Seq<JsonModel>) -> Option<Seq<char>> {
    let i = first_index_where(parts, has_text());
    if i < parts.len() {
        match parts[i].get("text"@) {
            Some(JsonModel::Str(t)) => Some(t),
            _ => None,
        }
    } else {
        None
    }
}

/// The text of the first part that has one, even after function-call parts.
#[verifier::loop_isolation(false)]
pub fn extract_first_text(parts: &Vec<JsonValue>) -> (r: Option<String>)
    ensures
        match r {
            Some(s) => first_text_spec(models_of(parts@)) == Some(s@),
            None => first_text_spec(models_of(parts@)) is None,
        },
{
    let ghost ms = models_of(parts@);
    proof {
        lemma_models_of(parts@);
    }
    let n = parts.len();
    for i in 0..n
        invariant
            n == parts@.len(),
            ms == models_of(parts@),
            forall|j: int| 0 <= j < i ==> !(#[trigger] has_text()(ms[j])),
    {
        match parts[i].get("text") {
            Some(JsonValue::String(t)) => {
                proof {
                    assert(has_text()(ms[i as int]));
                    lemma_first_index_where_unique(ms, has_text(), i as int);
                }
                return Some(String::from_str(t.as_str()));
            },
            _ => {
                assert(!has_text()(ms[i as int]));
            },
        }
    }
    proof {
        lemma_first_index_where_unique(ms, has_text(), n as int);
    }
    None
}

/// A count in `usageMetadata`: zero when the metadata or the field is missing
/// or not a non-negative integer.
pub open spec fn usage_count(response: JsonModel, field: Seq<char>) -> u64 {
    match response.get("usageMetadata"@) {
        Some(meta) => match meta.get(field) {
            Some(JsonModel::Number(NumberModel::PosInt(n))) => n,
            _ => 0,
        },
        None => 0,
    }
}

/// Whether the counts of a response can be added to `model`'s totals.
pub open spec fn can_record_usage(c: TokenCounter, response: JsonModel, model: Seq<char>) -> bool {
    can_add(
        c,
        model,
        usage_count(response, "promptTokenCount"@),
        usage_count(response, "candidatesTokenCount"@),
        usage_count(response, "thoughtsTokenCount"@),
    )
}

/// The counter after a response: with the response's counts added to
/// `model`'s totals when the response has `usageMetadata`, else unchanged.
pub open spec fn records_usage(before: TokenCounter, after: TokenCounter, response: JsonModel, model: Seq<char>) -> bool {
    if response.get("usageMetadata"@) is Some {
        is_addition(
            before,
            after,
            model,
            usage_count(response, "promptTokenCount"@),
            usage_count(response, "candidatesTokenCount"@),
            usage_count(response, "thoughtsTokenCount"@),
        )
    } else {
        after.entries() == before.entries()
    }
}

fn count_field(meta: &JsonValue, field: &str) -> (r: u64)
    ensures
        r == (match meta@.get(field@) {
            Some(JsonModel::Number(NumberModel::PosInt(n))) => n,
            _ => 0,
        }),
{
    match meta.get(field) {
        Some(v) => match v.as_u64() {
            Some(n) => n,
            None => 0,
        },
        None => 0,
    }
}

/// Adds the token usage of a response to the counter.
pub fn update_token_counter_from_response(response: &JsonValue, model: &str, token_counter: &mut TokenCounter)
    requires
        can_record_usage(*old(token_counter), response@, model@),
    ensures
        records_usage(*old(token_counter), *final(token_counter), response@, model@),
{
    match response.get("usageMetadata") {
        Some(meta) => {
            let p = count_field(meta, "promptTokenCount");
            let o = count_field(meta, "candidatesTokenCount");
            let t = count_field(meta, "thoughtsTokenCount");
            token_counter.add_counts(model, p, o, t);
        },
        None => {},
    }
}

/// A function call the model asked for: the tool's name, its arguments, and
/// the part that asked, as it goes back into the conversation.
#[derive(Debug)]
pub struct PendingFunctionCall {
    pub name: String,
    pub args: JsonValue,
    pub raw_part: JsonValue,
}

/// A pending call as values: name, arguments and part.
pub open spec fn call_view(c: PendingFunctionCall) -> (Seq<char>, JsonModel, JsonModel) {
    (c.name@, c.args@, c.raw_part@)
}

pub open spec fn call_views(cs: Seq<PendingFunctionCall>) -> Seq<(Seq<char>, JsonModel, JsonModel)> {
    cs.map_values(|c: PendingFunctionCall| call_view(c))
}

/// The name of the function a part calls: the part has a `functionCall` whose
/// `name` is a string.
pub open spec fn call_name(part: JsonModel) -> Option<Seq<char>> {
    match part.get("functionCall"@) {
        Some(fc) => match fc.get("name"@) {
            Some(JsonModel::Str(n)) => Some(n),
            _ => None,
        },
        None => None,
    }
}

/// The arguments of a part's call: its `args`, or an empty object.
pub open spec fn call_args(part: JsonModel) -> JsonModel {
    match part.get("functionCall"@) {
        Some(fc) => match fc.get("args"@) {
            Some(a) => a,
            None => JsonModel::Object(Seq::empty()),
        },
        None => JsonModel::Object(Seq::empty()),
    }
}

/// Whether a calling part lacks an `id` and gets a fresh one.
pub open spec fn needs_call_id(part: JsonModel) -> bool {
    &&& call_name(part) is Some
    &&& part.get("functionCall"@) matches Some(fc) && fc.get("id"@) is None
}

/// The part as it goes back: with `fresh` as the call's `id` when it had none.
pub open spec fn call_raw_part(part: JsonModel, fresh: Seq<char>) -> JsonModel {
    if needs_call_id(part) {
        match (part, part.get("functionCall"@)) {
            (JsonModel::Object(pe), Some(JsonModel::Object(fe))) => JsonModel::Object(
                model_insert(pe, "functionCall"@, JsonModel::Object(model_insert(fe, "id"@, JsonModel::Str(fresh)))),
            ),
            _ => part,
        }
    } else {
        part
    }
}

/// The calls that parts ask for, in order, with `ids[i]` the fresh identifier
/// for part `i`.
pub open spec fn calls_spec(parts: Seq<JsonModel>, ids: Seq<Seq<char>>) -> Seq<(Seq<char>, JsonModel, JsonModel)>
    decreases parts.len(),
{
    if parts.len() == 0 {
        Seq::empty()
    } else {
        let k = parts.len() - 1;
        let before = calls_spec(parts.drop_last(), ids);
        match call_name(parts[k]) {
            Some(n) => before.push((n, call_args(parts[k]), call_raw_part(parts[k], ids[k]))),
            None => before,
        }
    }
}

/// The names and arguments of the calls that parts ask for, in order.
pub open spec fn call_requests(parts: Seq<JsonModel>) -> Seq<(Seq<char>, JsonModel)>
    decreases parts.len(),
{
    if parts.len() == 0 {
        Seq::empty()
    } else {
        let k = parts.len() - 1;
        let before = call_requests(parts.drop_last());
        match call_name(parts[k]) {
            Some(n) => before.push((n, call_args(parts[k]))),
            None => before,
        }
    }
}

/// What the calls ask for does not depend on the identifiers given to them.
pub proof fn lemma_calls_requests(parts: Seq<JsonModel>, ids: Seq<Seq<char>>)
    ensures
        calls_spec(parts, ids).len() == call_requests(parts).len(),
        forall|i: int|
            0 <= i < call_requests(parts).len() ==> (#[trigger] calls_spec(parts, ids)[i]).0 == call_requests(
                parts,
            )[i].0 && calls_spec(parts, ids)[i].1 == call_requests(parts)[i].1,
    decreases parts.len(),
{
    if parts.len() > 0 {
        lemma_calls_requests(parts.drop_last(), ids);
    }
}

/// The calls that parts ask for, with some fresh identifier in the shape of a
/// UUID for each call that had none.
pub open spec fn calls_fit(parts: Seq<JsonModel>, calls: Seq<(Seq<char>, JsonModel, JsonModel)>) -> bool {
    exists|ids: Seq<Seq<char>>|
        {
            &&& ids.len() == parts.len()
            &&& forall|i: int| 0 <= i < ids.len() && needs_call_id(parts[i]) ==> is_uuid_text(#[trigger] ids[i])
            &&& #[trigger] calls_spec(parts, ids) == calls
        }
}

/// Whether a part's call carries an `id`.
pub open spec fn carries_call_id(part: JsonModel) -> bool {
    part.get("functionCall"@) matches Some(fc) && fc.get("id"@) is Some
}

/// Every call sent back carries an `id`: the part's own, or the fresh one.
pub proof fn lemma_calls_carry_ids(parts: Seq<JsonModel>, ids: Seq<Seq<char>>)
    requires
        parts.len() <= ids.len(),
    ensures
        forall|i: int| 0 <= i < calls_spec(parts, ids).len() ==> carries_call_id(#[trigger] calls_spec(parts, ids)[i].2),
    decreases parts.len(),
{
    if parts.len() > 0 {
        let k = parts.len() - 1;
        let before = calls_spec(parts.drop_last(), ids);
        lemma_calls_carry_ids(parts.drop_last(), ids);
        let part = parts[k];
        match call_name(part) {
            Some(n) => {
                let raw = call_raw_part(part, ids[k]);
                if needs_call_id(part) {
                    match (part, part.get("functionCall"@)) {
                        (JsonModel::Object(pe), Some(JsonModel::Object(fe))) => {
                            let fc2 = JsonModel::Object(model_insert(fe, "id"@, JsonModel::Str(ids[k])));
                            crate::json::lemma_lookup_insert_same(pe, "functionCall"@, fc2);
                            crate::json::lemma_lookup_insert_same(fe, "id"@, JsonModel::Str(ids[k]));
                        },
                        _ => {},
                    }
                }
                assert(carries_call_id(raw));
                let all = before.push((n, call_args(part), raw));
                assert forall|i: int| 0 <= i < all.len() implies carries_call_id(#[trigger] all[i].2) by {
                    if i < before.len() {
                        assert(all[i] == before[i]);
                    }
                }
            },
            None => {},
        }
    }
}

/// The call a part asks for, with `fresh` as its identifier when it has none.
#[verifier::loop_isolation(false)]
fn pending_call(part: &JsonValue, fresh: &str) -> (r: Option<PendingFunctionCall>)
    ensures
        match call_name(part@) {
            Some(n) => r matches Some(c) && call_view(c) == (n, call_args(part@), call_raw_part(part@, fresh@)),
            None => r is None,
        },
{
    let fc = match part.get("functionCall") {
        Some(fc) => fc,
        None => return None,
    };
    let name = match fc.get("name") {
        Some(JsonValue::String(n)) => String::from_str(n.as_str()),
        _ => return None,
    };
    let args = match fc.get("args") {
        Some(a) => a.deep_clone(),
        None => JsonValue::Object(Vec::new()),
    };
    proof {
        assert(entry_models_of(Seq::<(String, JsonValue)>::empty()) =~= Seq::empty());
    }
    let raw_part = match (part, fc) {
        (JsonValue::Object(pe), JsonValue::Object(fe)) => {
            match fc.get("id") {
                None => {
                    let mut fe2 = clone_entries(fe);
                    set_entry(&mut fe2, "id", JsonValue::String(String::from_str(fresh)));
                    let mut pe2 = clone_entries(pe);
                    set_entry(&mut pe2, "functionCall", JsonValue::Object(fe2));
                    JsonValue::Object(pe2)
                },
                Some(_) => part.deep_clone(),
            }
        },
        _ => part.deep_clone(),
    };
    Some(PendingFunctionCall { name, args, raw_part })
}

/// Sets the first entry with key `k` to `v`, or appends `(k, v)` when there is none.
fn set_entry(entries: &mut Vec<(String, JsonValue)>, k: &str, v: JsonValue)
    ensures
        entry_models_of(final(entries)@) == model_insert(entry_models_of(old(entries)@), k@, v@),
{
    proof {
        lemma_entry_models_of(entries@);
    }
    match find_key(entries, k) {
        Some(i) => {
            let ghost before = entries@;
            entries.set(i, (String::from_str(k), v));
            proof {
                lemma_entry_models_of(entries@);
                assert(entry_models_of(entries@) =~= entry_models_of(before).update(i as int, (k@, v@)));
            }
        },
        None => {
            crate::json::push_entry(entries, k, v);
        },
    }
}

/// The function calls that parts ask for, in order, with `ids[i]` the
/// identifier given to part `i` when its call has none.
#[verifier::loop_isolation(false)]
pub fn collect_function_calls_with_ids(parts: &Vec<JsonValue>, ids: &Vec<String>) -> (r: Vec<PendingFunctionCall>)
    requires
        ids@.len() == parts@.len(),
    ensures
        call_views(r@) == calls_spec(models_of(parts@), views_of(ids@)),
{
    let ghost ms = models_of(parts@);
    let ghost vs = views_of(ids@);
    proof {
        lemma_models_of(parts@);
    }
    let mut calls: Vec<PendingFunctionCall> = Vec::new();
    let n = parts.len();
    for i in 0..n
        invariant
            n == parts@.len(),
            ids@.len() == n,
            ms == models_of(parts@),
            vs == views_of(ids@),
            ms.len() == n,
            call_views(calls@) == calls_spec(ms.take(i as int), vs),
    {
        let ghost before = calls@;
        proof {
            assert(ms.take(i + 1).drop_last() =~= ms.take(i as int));
            assert(ms.take(i + 1)[i as int] == ms[i as int]);
        }
        match pending_call(&parts[i], ids[i].as_str()) {
            Some(c) => {
                calls.push(c);
                proof {
                    assert(call_views(calls@) =~= call_views(before).push(call_view(c)));
                }
            },
            None => {},
        }
    }
    proof {
        assert(ms.take(n as int) =~= ms);
    }
    calls
}

/// The function calls that parts ask for, in order. A call without an `id`
/// gets a fresh identifier in its part.
#[verifier::loop_isolation(false)]
pub fn collect_function_calls(parts: &Vec<JsonValue>) -> (r: Vec<PendingFunctionCall>)
    ensures
        calls_fit(models_of(parts@), call_views(r@)),
        r@.len() == call_requests(models_of(parts@)).len(),
        forall|i: int|
            0 <= i < r@.len() ==> (#[trigger] r@[i]).name@ == call_requests(models_of(parts@))[i].0 && r@[i].args@
                == call_requests(models_of(parts@))[i].1,
{
    proof {
        lemma_models_of(parts@);
    }
    let mut ids: Vec<String> = Vec::new();
    let n = parts.len();
    for i in 0..n
        invariant
            n == parts@.len(),
            models_of(parts@).len() == n,
            ids@.len() == i,
            forall|j: int|
                0 <= j < i && needs_call_id(models_of(parts@)[j]) ==> is_uuid_text(#[trigger] ids@[j]@),
    {
        if part_needs_id(&parts[i]) {
            ids.push(new_call_id());
        } else {
            ids.push(String::new());
        }
    }
    let r = collect_function_calls_with_ids(parts, &ids);
    proof {
        let vs = views_of(ids@);
        assert(forall|j: int| 0 <= j < vs.len() ==> #[trigger] vs[j] == ids@[j]@);
        let ms = models_of(parts@);
        lemma_calls_requests(ms, vs);
        assert(calls_spec(ms, vs) == call_views(r@));
        assert(call_views(r@).len() == r@.len());
        assert forall|j: int| 0 <= j < r@.len() implies (#[trigger] r@[j]).name@ == call_requests(ms)[j].0
            && r@[j].args@ == call_requests(ms)[j].1 by {
            assert(call_views(r@)[j] == call_view(r@[j]));
            assert(calls_spec(ms, vs)[j] == call_views(r@)[j]);
        }
    }
    r
}

/// Whether a part asks for a call and has no `id`.
fn part_needs_id(part: &JsonValue) -> (r: bool)
    ensures
        r == needs_call_id(part@),
{
    match part.get("functionCall") {
        Some(fc) => match fc.get("name") {
            Some(JsonValue::String(_)) => fc.get("id").is_none(),
            _ => false,
        },
        None => false,
    }
}

} // verus!
