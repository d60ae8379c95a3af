//! The Gemini adapter: request bodies, the reading of responses, and the
//! decisions of a generation with tool calls. The HTTP exchanges and the tool
//! runs happen outside this library.
use vstd::prelude::*;

use crate::json::{
    entry_models_of, lemma_entry_models_of, lemma_entry_models_push, lemma_lookup_remove_same,
    lemma_models_of, lemma_models_push, model_keys, model_lookup, model_remove, models_of,
    JsonModel, JsonValue,
};
use crate::keyed::{find_key, key_index, keys_distinct};

verus! {

/// The models and the HTTP timeout of the Gemini adapter.
#[derive(Debug)]
pub struct GeminiConfig {
    pub reasoning_model: String,
    pub multimodal_model: String,
    pub cheap_model: String,
    pub default_model: String,
    /// Per-request HTTP timeout for the Gemini REST API (seconds).
    pub http_timeout_seconds: u64,
}

impl Default for GeminiConfig {
    fn default() -> (r: GeminiConfig)
        ensures
            r.reasoning_model@ == "gemini-3-pro-preview"@,
            r.multimodal_model@ == "gemini-2.5-flash"@,
            r.cheap_model@ == "gemini-2.5-flash-lite"@,
            r.default_model@ == "gemini-2.5-flash"@,
            r.http_timeout_seconds == 600,
    {
        GeminiConfig {
            reasoning_model: String::from_str("gemini-3-pro-preview"),
            multimodal_model: String::from_str("gemini-2.5-flash"),
            cheap_model: String::from_str("gemini-2.5-flash-lite"),
            default_model: String::from_str("gemini-2.5-flash"),
            http_timeout_seconds: 600,
        }
    }
}

impl GeminiConfig {
    /// The model for a kind of request: reasoning first, then multimodal, then cheap.
    pub open spec fn spec_model(&self, cheap: bool, reasoning: bool, multimodal: bool) -> Seq<char> {
        if reasoning {
            self.reasoning_model@
        } else if multimodal {
            self.multimodal_model@
        } else if cheap {
            self.cheap_model@
        } else {
            self.default_model@
        }
    }

    pub fn get_model(&self, cheap: bool, reasoning: bool, multimodal: bool) -> (r: String)
        ensures
            r@ == self.spec_model(cheap, reasoning, multimodal),
    {
        if reasoning {
            return String::from_str(self.reasoning_model.as_str());
        }
        if multimodal {
            return String::from_str(self.multimodal_model.as_str());
        }
        if cheap {
            return String::from_str(self.cheap_model.as_str());
        }
        String::from_str(self.default_model.as_str())
    }
}

/// How the model choice depends on the flags: a reasoning request gets the
/// reasoning model whatever the other flags say; a multimodal request that
/// asks no reasoning gets the multimodal model whether or not it is cheap; a
/// plain cheap request gets the cheap model and a plain request the default
/// one. The choice is always one of the four configured models.
pub proof fn lemma_model_choice(c: GeminiConfig, cheap: bool, reasoning: bool, multimodal: bool)
    ensures
        c.spec_model(cheap, true, multimodal) == c.reasoning_model@,
        c.spec_model(cheap, false, true) == c.multimodal_model@,
        c.spec_model(true, false, false) == c.cheap_model@,
        c.spec_model(false, false, false) == c.default_model@,
        c.spec_model(cheap, true, multimodal) == c.spec_model(!cheap, true, !multimodal),
        ({
            let m = c.spec_model(cheap, reasoning, multimodal);
            m == c.reasoning_model@ || m == c.multimodal_model@ || m == c.cheap_model@ || m == c.default_model@
        }),
{
}

/// The value with every object's `additionalProperties` entry taken out, at
/// every depth.
pub open spec fn strip_spec(v: JsonModel) -> JsonModel
    decreases v, 1nat,
{
    match v {
        JsonModel::Object(m) => JsonModel::Object(model_remove(strip_entries(m), "additionalProperties"@)),
        JsonModel::Array(items) => JsonModel::Array(strip_items(items)),
        _ => v,
    }
}

pub open spec fn strip_entries(m: Seq<(Seq<char>, JsonModel)>) -> Seq<(Seq<char>, JsonModel)>
    decreases m, 0nat,
{
    if m.len() == 0 {
        Seq::empty()
    } else {
        strip_entries(m.drop_last()).push((m.last().0, strip_spec(m.last().1)))
    }
}

pub open spec fn strip_items(items: Seq<JsonModel>) -> Seq<JsonModel>
    decreases items, 0nat,
{
    if items.len() == 0 {
        Seq::empty()
    } else {
        strip_items(items.drop_last()).push(strip_spec(items.last()))
    }
}

/// No object in the value, at any depth, has an `additionalProperties` entry.
pub open spec fn free_of_additional(v: JsonModel) -> bool
    decreases v, 1nat,
{
    match v {
        JsonModel::Object(m) => model_lookup(m, "additionalProperties"@) is None && entries_free(m),
        JsonModel::Array(items) => items_free(items),
        _ => true,
    }
}

pub open spec fn entries_free(m: Seq<(Seq<char>, JsonModel)>) -> bool
    decreases m, 0nat,
{
    if m.len() == 0 {
        true
    } else {
        entries_free(m.drop_last()) && free_of_additional(m.last().1)
    }
}

pub open spec fn items_free(items: Seq<JsonModel>) -> bool
    decreases items, 0nat,
{
    if items.len() == 0 {
        true
    } else {
        items_free(items.drop_last()) && free_of_additional(items.last())
    }
}

/// No object in the value, at any depth, has a key twice (as in any JSON
/// document that a parser produced).
pub open spec fn keys_distinct_deep(v: JsonModel) -> bool
    decreases v, 1nat,
{
    match v {
        JsonModel::Object(m) => keys_distinct(model_keys(m)) && entries_distinct_deep(m),
        JsonModel::Array(items) => items_distinct_deep(items),
        _ => true,
    }
}

pub open spec fn entries_distinct_deep(m: Seq<(Seq<char>, JsonModel)>) -> bool
    decreases m, 0nat,
{
    if m.len() == 0 {
        true
    } else {
        entries_distinct_deep(m.drop_last()) && keys_distinct_deep(m.last().1)
    }
}

pub open spec fn items_distinct_deep(items: Seq<JsonModel>) -> bool
    decreases items, 0nat,
{
    if items.len() == 0 {
        true
    } else {
        items_distinct_deep(items.drop_last()) && keys_distinct_deep(items.last())
    }
}

proof fn lemma_entries_free_all(m: Seq<(Seq<char>, JsonModel)>)
    ensures
        entries_free(m) == (forall|i: int| 0 <= i < m.len() ==> free_of_additional(#[trigger] m[i].1)),
    decreases m.len(),
{
    if m.len() > 0 {
        lemma_entries_free_all(m.drop_last());
        if entries_free(m) {
            assert forall|i: int| 0 <= i < m.len() implies free_of_additional(#[trigger] m[i].1) by {
                if i < m.len() - 1 {
                    assert(m[i] == m.drop_last()[i]);
                }
            }
        }
        if forall|i: int| 0 <= i < m.len() ==> free_of_additional(#[trigger] m[i].1) {
            assert forall|i: int| 0 <= i < m.drop_last().len() implies free_of_additional(
                #[trigger] m.drop_last()[i].1,
            ) by {
                assert(m[i] == m.drop_last()[i]);
            }
        }
    }
}

/// Stripping an object's entries strips each value and keeps the keys.
proof fn lemma_strip_entries(m: Seq<(Seq<char>, JsonModel)>)
    requires
        entries_distinct_deep(m),
    ensures
        entries_free(strip_entries(m)),
        model_keys(strip_entries(m)) == model_keys(m),
        strip_entries(m).len() == m.len(),
    decreases m, 0nat,
{
    if m.len() > 0 {
        assert(decreases_to!(m => m.last()));
        assert(decreases_to!(m.last() => m.last().1));
        lemma_strip_entries(m.drop_last());
        lemma_strip_free(m.last().1);
        let s = strip_entries(m);
        assert(s.drop_last() =~= strip_entries(m.drop_last()));
        assert(model_keys(s) =~= model_keys(m)) by {
            assert forall|i: int| 0 <= i < s.len() implies #[trigger] model_keys(s)[i] == model_keys(m)[i] by {
                if i < s.len() - 1 {
                    assert(model_keys(strip_entries(m.drop_last()))[i] == model_keys(m.drop_last())[i]);
                }
            }
        }
    }
}

proof fn lemma_strip_items(items: Seq<JsonModel>)
    requires
        items_distinct_deep(items),
    ensures
        items_free(strip_items(items)),
    decreases items, 0nat,
{
    if items.len() > 0 {
        assert(decreases_to!(items => items.last()));
        lemma_strip_items(items.drop_last());
        lemma_strip_free(items.last());
        assert(strip_items(items).drop_last() =~= strip_items(items.drop_last()));
    }
}

/// Once stripped, a value has no `additionalProperties` entry at any depth,
/// provided no object in it has a key twice.
pub proof fn lemma_strip_free(v: JsonModel)
    requires
        keys_distinct_deep(v),
    ensures
        free_of_additional(strip_spec(v)),
    decreases v, 1nat,
{
    match v {
        JsonModel::Object(m) => {
            lemma_strip_entries(m);
            let s = strip_entries(m);
            lemma_lookup_remove_same(s, "additionalProperties"@);
            lemma_entries_free_all(s);
            let r = model_remove(s, "additionalProperties"@);
            lemma_entries_free_all(r);
            crate::keyed::lemma_key_index(model_keys(s), "additionalProperties"@);
            let i = key_index(model_keys(s), "additionalProperties"@);
            if i < s.len() {
                assert forall|j: int| 0 <= j < r.len() implies free_of_additional(#[trigger] r[j].1) by {
                    if j < i {
                        assert(r[j] == s[j]);
                    } else {
                        assert(r[j] == s[j + 1]);
                    }
                }
            }
        },
        JsonModel::Array(items) => {
            lemma_strip_items(items);
        },
        _ => {},
    }
}

/// Takes `additionalProperties` out of a JSON schema, at every depth (Gemini
/// refuses the keyword).
pub fn strip_additional_properties(v: JsonValue) -> (r: JsonValue)
    ensures
        r@ == strip_spec(v@),
{
    strip_ref(&v)
}

#[verifier::loop_isolation(false)]
fn strip_ref(v: &JsonValue) -> (r: JsonValue)
    ensures
        r@ == strip_spec(v@),
    decreases v,
{
    match v {
        JsonValue::Object(entries) => {
            let mut out: Vec<(String, JsonValue)> = Vec::new();
            let n = entries.len();
            proof {
                lemma_entry_models_of(entries@);
            }
            for i in 0..n
                invariant
                    n == entries@.len(),
                    entry_models_of(out@) == strip_entries(entry_models_of(entries@).take(i as int)),
            {
                proof {
                    assert(decreases_to!(entries@[i as int] => entries@[i as int].1));
                    assert(decreases_to!(entries@ => entries@[i as int]));
                    assert(decreases_to!(*entries => entries@));
                }
                let k = String::from_str(entries[i].0.as_str());
                let s = strip_ref(&entries[i].1);
                let ghost before = out@;
                out.push((k, s));
                proof {
                    assert(out@ == before.push(out@[before.len() as int]));
                    lemma_entry_models_push(before, out@[before.len() as int]);
                    let em = entry_models_of(entries@);
                    assert(em.take(i + 1).drop_last() =~= em.take(i as int));
                }
            }
            proof {
                assert(entry_models_of(entries@).take(n as int) =~= entry_models_of(entries@));
                lemma_entry_models_of(out@);
            }
            match find_key(&out, "additionalProperties") {
                Some(k) => {
                    let ghost before = out@;
                    out.remove(k);
                    proof {
                        crate::json::lemma_entry_models_remove(before, k as int);
                    }
                },
                None => {},
            }
            JsonValue::Object(out)
        },
        JsonValue::Array(items) => {
            let mut out: Vec<JsonValue> = Vec::new();
            let n = items.len();
            proof {
                lemma_models_of(items@);
            }
            for i in 0..n
                invariant
                    n == items@.len(),
                    models_of(out@) == strip_items(models_of(items@).take(i as int)),
            {
                proof {
                    assert(decreases_to!(items@ => items@[i as int]));
                    assert(decreases_to!(*items => items@));
                }
                let s = strip_ref(&items[i]);
                let ghost before = out@;
                out.push(s);
                proof {
                    assert(out@ == before.push(out@[before.len() as int]));
                    lemma_models_push(before, out@[before.len() as int]);
                    let im = models_of(items@);
                    assert(im.take(i + 1).drop_last() =~= im.take(i as int));
                }
            }
            proof {
                assert(models_of(items@).take(n as int) =~= models_of(items@));
            }
            JsonValue::Array(out)
        },
        _ => v.deep_clone(),
    }
}

} // verus!
