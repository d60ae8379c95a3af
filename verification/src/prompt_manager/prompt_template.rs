//! Prompt templates with declared, typed variables: checking the values a
//! caller gives against the declarations, and rendering.
use vstd::prelude::*;

use crate::json::{clone_entries, lemma_entry_models_of, lemma_models_of, JsonModel, JsonValue};
use crate::keyed::{
    entry_keys, find_key, first_index_where, keep_where, lemma_first_index_where,
    lemma_first_index_where_unique, lemma_keep_where_none, lemma_keep_where_step, lemma_key_index, lemma_key_index_unique,
    lookup,
};
use crate::sorting::{lex_order, sort_strings};
use crate::bindings::{
    debug_strings, debug_text_of_strings, known_valid_pattern, optional_views, regex_captures_first_group,
    regex_captures_result, tera_render_str, tera_render_str_result,
};
use crate::json::entry_models_of;
use crate::json_text::{json_text, json_text_spec};
use crate::template_scan::{renders_deterministically, tera_may_not_return};
use crate::keyed::{has_key, key_index, keys_distinct};
use crate::prompt_manager::templates::{PromptPhase, PromptTemplate};
use crate::text::{decimal, decimal_string, str_eq, trim, trim_str, views_of};
use vstd::relations::sorted_by;

verus! {

/// Errors of loading, checking and rendering prompt templates.
#[derive(Debug)]
pub enum PromptTemplateError {
    NotFound(String),
    VariableMismatch { prompt: String, missing: Vec<String>, extra: Vec<String> },
    VariablesParse { prompt: String, detail: String },
    Rendering { prompt: String, detail: String },
    VariableValueType { name: String, expected_type: String, detail: String },
}

/// One declared variable of a template: its name, its declared type and
/// whether a caller must give it.
#[derive(Debug)]
pub struct PromptVariable {
    pub name: String,
    pub var_type: String,
    pub required: bool,
}

/// A loaded template: its name, its text and its declared variables.
#[derive(Debug)]
pub struct PromptTemplateData {
    pub name: String,
    pub template_text: String,
    pub variables: Vec<PromptVariable>,
}

/// The declared types a variable may have.
pub open spec fn known_var_type(ty: Seq<char>) -> bool {
    ||| ty == "str"@
    ||| ty == "int"@
    ||| ty == "bool"@
    ||| ty == "list[int]"@
    ||| ty == "list[str]"@
    ||| ty == "dict[str, str]"@
}

pub open spec fn not_integer() -> spec_fn(JsonModel) -> bool {
    |e: JsonModel| !e.is_integer()
}

pub open spec fn not_string() -> spec_fn(JsonModel) -> bool {
    |e: JsonModel| !(e is Str)
}

pub open spec fn entry_not_string() -> spec_fn((Seq<char>, JsonModel)) -> bool {
    |e: (Seq<char>, JsonModel)| !(e.1 is Str)
}

/// Why a value does not have the declared type `ty`, or nothing when it has it
/// (or when `ty` is not a known type).
pub open spec fn value_type_problem(v: JsonModel, ty: Seq<char>) -> Option<Seq<char>> {
    if ty == "str"@ {
        if v is Str {
            None
        } else {
            Some("use a JSON string or prompt_variables_from_str_map"@)
        }
    } else if ty == "int"@ {
        if v.is_integer() {
            None
        } else {
            Some("use a JSON integer (not a float string)"@)
        }
    } else if ty == "bool"@ {
        if v is Bool {
            None
        } else {
            Some("use JSON true/false"@)
        }
    } else if ty == "list[int]"@ {
        match v {
            JsonModel::Array(items) => {
                let i = first_index_where(items, not_integer());
                if i < items.len() {
                    Some("element ["@ + decimal(i as nat) + "] is not an integer"@)
                } else {
                    None
                }
            },
            _ => Some("use a JSON array of integers"@),
        }
    } else if ty == "list[str]"@ {
        match v {
            JsonModel::Array(items) => {
                let i = first_index_where(items, not_string());
                if i < items.len() {
                    Some("element ["@ + decimal(i as nat) + "] is not a string"@)
                } else {
                    None
                }
            },
            _ => Some("use a JSON array of strings"@),
        }
    } else if ty == "dict[str, str]"@ {
        match v {
            JsonModel::Object(entries) => {
                let i = first_index_where(entries, entry_not_string());
                if i < entries.len() {
                    Some("value for key '"@ + entries[i].0 + "' is not a string"@)
                } else {
                    None
                }
            },
            _ => Some("use a JSON object with string keys and string values"@),
        }
    } else {
        None
    }
}

/// A value conforms to a declared type.
pub open spec fn conforms(v: JsonModel, ty: Seq<char>) -> bool {
    known_var_type(ty) && value_type_problem(v, ty) is None
}

/// What each declared type accepts: `str` a JSON string, `int` an integer,
/// `bool` a boolean, `list[int]` an array whose elements are all integers,
/// `list[str]` an array whose elements are all strings, `dict[str, str]` an
/// object whose values are all strings; no other type name is accepted. An
/// array or object that fails is reported by its first bad element.
pub proof fn lemma_conformance_by_type(v: JsonModel, ty: Seq<char>)
    ensures
        ty == "str"@ ==> (conforms(v, ty) <==> v is Str),
        ty == "int"@ ==> (conforms(v, ty) <==> v.is_integer()),
        ty == "bool"@ ==> (conforms(v, ty) <==> v is Bool),
        ty == "list[int]"@ ==> (conforms(v, ty) <==> (v is Array && forall|j: int|
            0 <= j < v->Array_0.len() ==> (#[trigger] v->Array_0[j]).is_integer())),
        ty == "list[str]"@ ==> (conforms(v, ty) <==> (v is Array && forall|j: int|
            0 <= j < v->Array_0.len() ==> #[trigger] v->Array_0[j] is Str)),
        ty == "dict[str, str]"@ ==> (conforms(v, ty) <==> (v is Object && forall|j: int|
            0 <= j < v->Object_0.len() ==> #[trigger] v->Object_0[j].1 is Str)),
        !known_var_type(ty) ==> !conforms(v, ty),
        forall|k: int|
            ty == "list[str]"@ && v is Array && 0 <= k < v->Array_0.len() && !(#[trigger] v->Array_0[k] is Str)
                && (forall|j: int| 0 <= j < k ==> v->Array_0[j] is Str) ==> value_type_problem(v, ty) == Some(
                "element ["@ + decimal(k as nat) + "] is not a string"@,
            ),
        forall|k: int|
            ty == "list[int]"@ && v is Array && 0 <= k < v->Array_0.len() && !(#[trigger] v->Array_0[k]).is_integer()
                && (forall|j: int| 0 <= j < k ==> v->Array_0[j].is_integer()) ==> value_type_problem(v, ty) == Some(
                "element ["@ + decimal(k as nat) + "] is not an integer"@,
            ),
{
    reveal_strlit("str");
    reveal_strlit("int");
    reveal_strlit("bool");
    reveal_strlit("list[int]");
    reveal_strlit("list[str]");
    reveal_strlit("dict[str, str]");
    let names = seq!["str"@, "int"@, "bool"@, "list[int]"@, "list[str]"@, "dict[str, str]"@];
    assert forall|a: int, b: int| 0 <= a < b < 6 implies names[a] != names[b] by {
        if a == 3 && b == 4 {
            assert(names[a][5] != names[b][5]);
        } else {
            assert(names[a][0] != names[b][0]);
        }
    }
    assert("str"@ != "int"@ && "str"@ != "bool"@ && "str"@ != "list[int]"@ && "str"@ != "list[str]"@);
    assert("int"@ != "bool"@ && "int"@ != "list[int]"@ && "int"@ != "list[str]"@ && "bool"@ != "list[int]"@);
    assert("bool"@ != "list[str]"@ && "list[int]"@ != "list[str]"@);
    assert("str"@ != "dict[str, str]"@ && "int"@ != "dict[str, str]"@ && "bool"@ != "dict[str, str]"@);
    assert("list[int]"@ != "dict[str, str]"@ && "list[str]"@ != "dict[str, str]"@);
    match v {
        JsonModel::Array(items) => {
            lemma_first_index_where(items, not_string());
            lemma_first_index_where(items, not_integer());
            assert forall|k: int|
                ty == "list[str]"@ && 0 <= k < items.len() && !(#[trigger] items[k] is Str)
                    && (forall|j: int| 0 <= j < k ==> items[j] is Str) implies value_type_problem(v, ty) == Some(
                    "element ["@ + decimal(k as nat) + "] is not a string"@,
                ) by {
                lemma_first_index_where_unique(items, not_string(), k);
            }
            assert forall|k: int|
                ty == "list[int]"@ && 0 <= k < items.len() && !(#[trigger] items[k]).is_integer()
                    && (forall|j: int| 0 <= j < k ==> items[j].is_integer()) implies value_type_problem(v, ty) == Some(
                    "element ["@ + decimal(k as nat) + "] is not an integer"@,
                ) by {
                lemma_first_index_where_unique(items, not_integer(), k);
            }
        },
        JsonModel::Object(entries) => {
            lemma_first_index_where(entries, entry_not_string());
        },
        _ => {},
    }
}

/// `e` is the error that checking value `v` of variable `name` against type `ty` gives.
pub open spec fn is_type_check_error(e: PromptTemplateError, v: JsonModel, ty: Seq<char>, name: Seq<char>) -> bool {
    match e {
        PromptTemplateError::VariableValueType { name: n, expected_type: t, detail: d } => {
            &&& known_var_type(ty)
            &&& n@ == name
            &&& t@ == ty
            &&& value_type_problem(v, ty) == Some(d@)
        },
        PromptTemplateError::VariablesParse { prompt, detail } => {
            &&& !known_var_type(ty)
            &&& prompt@ == name
            &&& detail@ == "unknown declared type '"@ + ty + "'"@
        },
        _ => false,
    }
}

fn value_type_error(name: &str, ty: &str, detail: String) -> (e: PromptTemplateError)
    ensures
        e matches PromptTemplateError::VariableValueType { name: n, expected_type: t, detail: d }
            && n@ == name@ && t@ == ty@ && d@ == detail@,
{
    PromptTemplateError::VariableValueType {
        name: String::from_str(name),
        expected_type: String::from_str(ty),
        detail,
    }
}

/// `prefix`, then the decimal notation of `i`, then `suffix`.
fn numbered_message(prefix: &str, i: usize, suffix: &str) -> (r: String)
    ensures
        r@ == prefix@ + decimal(i as nat) + suffix@,
{
    let mut s = String::from_str(prefix);
    let d = decimal_string(i as u64);
    s.append(d.as_str());
    s.append(suffix);
    s
}

/// Checks a variable's value against its declared type.
#[verifier::loop_isolation(false)]
pub fn validate_json_value_type(v: &JsonValue, ty: &str, name: &str) -> (r: Result<(), PromptTemplateError>)
    ensures
        r is Ok <==> conforms(v@, ty@),
        r matches Err(e) ==> is_type_check_error(e, v@, ty@, name@),
{
    if str_eq(ty, "str") {
        if !v.is_string() {
            return Err(value_type_error(name, ty, String::from_str("use a JSON string or prompt_variables_from_str_map")));
        }
    } else if str_eq(ty, "int") {
        if !v.is_integer() {
            return Err(value_type_error(name, ty, String::from_str("use a JSON integer (not a float string)")));
        }
    } else if str_eq(ty, "bool") {
        if !v.is_boolean() {
            return Err(value_type_error(name, ty, String::from_str("use JSON true/false")));
        }
    } else if str_eq(ty, "list[int]") {
        match v {
            JsonValue::Array(arr) => {
                let ghost items = v@->Array_0;
                proof {
                    lemma_models_of(arr@);
                }
                let n = arr.len();
                for i in 0..n
                    invariant
                        n == arr@.len(),
                        items.len() == n,
                        forall|j: int| 0 <= j < n ==> items[j] == #[trigger] arr@[j]@,
                        forall|j: int| 0 <= j < i ==> !not_integer()(items[j]),
                {
                    if !arr[i].is_integer() {
                        proof {
                            lemma_first_index_where_unique(items, not_integer(), i as int);
                        }
                        return Err(value_type_error(name, ty, numbered_message("element [", i, "] is not an integer")));
                    }
                }
                proof {
                    lemma_first_index_where_unique(items, not_integer(), n as int);
                }
            },
            _ => {
                return Err(value_type_error(name, ty, String::from_str("use a JSON array of integers")));
            },
        }
    } else if str_eq(ty, "list[str]") {
        match v {
            JsonValue::Array(arr) => {
                let ghost items = v@->Array_0;
                proof {
                    lemma_models_of(arr@);
                }
                let n = arr.len();
                for i in 0..n
                    invariant
                        n == arr@.len(),
                        items.len() == n,
                        forall|j: int| 0 <= j < n ==> items[j] == #[trigger] arr@[j]@,
                        forall|j: int| 0 <= j < i ==> !not_string()(items[j]),
                {
                    if !arr[i].is_string() {
                        proof {
                            lemma_first_index_where_unique(items, not_string(), i as int);
                        }
                        return Err(value_type_error(name, ty, numbered_message("element [", i, "] is not a string")));
                    }
                }
                proof {
                    lemma_first_index_where_unique(items, not_string(), n as int);
                }
            },
            _ => {
                return Err(value_type_error(name, ty, String::from_str("use a JSON array of strings")));
            },
        }
    } else if str_eq(ty, "dict[str, str]") {
        match v {
            JsonValue::Object(obj) => {
                let ghost entries = v@->Object_0;
                proof {
                    lemma_entry_models_of(obj@);
                }
                let n = obj.len();
                for i in 0..n
                    invariant
                        n == obj@.len(),
                        entries.len() == n,
                        forall|j: int|
                            0 <= j < n ==> entries[j].0 == (#[trigger] obj@[j]).0@ && entries[j].1 == obj@[j].1@,
                        forall|j: int| 0 <= j < i ==> !entry_not_string()(entries[j]),
                {
                    if !obj[i].1.is_string() {
                        proof {
                            lemma_first_index_where_unique(entries, entry_not_string(), i as int);
                        }
                        let mut d = String::from_str("value for key '");
                        d.append(obj[i].0.as_str());
                        d.append("' is not a string");
                        return Err(value_type_error(name, ty, d));
                    }
                }
                proof {
                    lemma_first_index_where_unique(entries, entry_not_string(), n as int);
                }
            },
            _ => {
                return Err(
                    value_type_error(name, ty, String::from_str("use a JSON object with string keys and string values")),
                );
            },
        }
    } else {
        let mut d = String::from_str("unknown declared type '");
        d.append(ty);
        d.append("'");
        return Err(PromptTemplateError::VariablesParse { prompt: String::from_str(name), detail: d });
    }
    Ok(())
}

/// The names a list of declarations declares.
pub open spec fn declared_names(specs: Seq<PromptVariable>) -> Seq<Seq<char>> {
    specs.map_values(|s: PromptVariable| s.name@)
}

/// The given variables that no declaration names, in the order given.
pub open spec fn extra_variables(vars: Seq<(String, JsonValue)>, specs: Seq<PromptVariable>) -> Seq<Seq<char>> {
    keep_where(entry_keys(vars), |k: Seq<char>| !declared_names(specs).contains(k))
}

/// A required declaration for which no value is given.
pub open spec fn missing_pred(vars: Seq<(String, JsonValue)>) -> spec_fn(PromptVariable) -> bool {
    |s: PromptVariable| s.required && lookup(vars, s.name@) is None
}

/// The names of the required declarations that are not given, in declaration order.
pub open spec fn missing_variables(vars: Seq<(String, JsonValue)>, specs: Seq<PromptVariable>) -> Seq<Seq<char>> {
    declared_names(keep_where(specs, missing_pred(vars)))
}

/// A declaration whose given value does not conform to its type.
pub open spec fn mistyped_pred(vars: Seq<(String, JsonValue)>) -> spec_fn(PromptVariable) -> bool {
    |s: PromptVariable|
        match lookup(vars, s.name@) {
            Some(v) => !conforms(v@, s.var_type@),
            None => false,
        }
}

/// `x` is the given names, in ascending order.
pub open spec fn sorted_names_of(x: Seq<String>, names: Seq<Seq<char>>) -> bool {
    &&& sorted_by(views_of(x), lex_order())
    &&& views_of(x).to_multiset() == names.to_multiset()
}

/// The outcome of checking given variables against declarations: unknown
/// names first (all of them, sorted), then the first declaration whose value
/// has the wrong type, then the required names that are not given (sorted).
pub open spec fn runtime_check_outcome(
    r: Result<(), PromptTemplateError>,
    prompt_name: Seq<char>,
    vars: Seq<(String, JsonValue)>,
    specs: Seq<PromptVariable>,
) -> bool {
    let extra = extra_variables(vars, specs);
    let f = first_index_where(specs, mistyped_pred(vars));
    let missing = missing_variables(vars, specs);
    if extra.len() > 0 {
        r matches Err(PromptTemplateError::VariableMismatch { prompt, missing: m, extra: x })
            && prompt@ == prompt_name && m@.len() == 0 && sorted_names_of(x@, extra)
    } else if f < specs.len() {
        r matches Err(e) && is_type_check_error(
            e,
            lookup(vars, specs[f].name@).unwrap()@,
            specs[f].var_type@,
            specs[f].name@,
        )
    } else if missing.len() > 0 {
        r matches Err(PromptTemplateError::VariableMismatch { prompt, missing: m, extra: x })
            && prompt@ == prompt_name && x@.len() == 0 && sorted_names_of(m@, missing)
    } else {
        r is Ok
    }
}

fn declares(specs: &Vec<PromptVariable>, name: &String) -> (r: bool)
    ensures
        r == declared_names(specs@).contains(name@),
{
    let n = specs.len();
    for i in 0..n
        invariant
            n == specs@.len(),
            forall|j: int| 0 <= j < i ==> specs@[j].name@ != name@,
    {
        if specs[i].name == *name {
            assert(declared_names(specs@)[i as int] == name@);
            return true;
        }
    }
    proof {
        if declared_names(specs@).contains(name@) {
            let j = choose|j: int| 0 <= j < n && declared_names(specs@)[j] == name@;
            assert(specs@[j].name@ == name@);
        }
    }
    false
}

fn copy_string(s: &String) -> (r: String)
    ensures
        r@ == s@,
{
    String::from_str(s.as_str())
}

/// Checks the variables a caller gives against a template's declarations:
/// no unknown names, every given value of its declared type, every required
/// name given.
pub fn validate_runtime_variables(
    prompt_name: &str,
    variables: &Vec<(String, JsonValue)>,
    specs: &Vec<PromptVariable>,
) -> (r: Result<(), PromptTemplateError>)
    requires
        keys_distinct(entry_keys(variables@)),
    ensures
        runtime_check_outcome(r, prompt_name@, variables@, specs@),
{
    let ghost keys = entry_keys(variables@);
    let ghost not_declared = |k: Seq<char>| !declared_names(specs@).contains(k);
    let mut extra: Vec<String> = Vec::new();
    let nv = variables.len();
    for i in 0..nv
        invariant
            nv == variables@.len(),
            keys == entry_keys(variables@),
            not_declared == (|k: Seq<char>| !declared_names(specs@).contains(k)),
            views_of(extra@) == keep_where(keys.take(i as int), not_declared),
    {
        proof {
            lemma_keep_where_step(keys, not_declared, i as int);
        }
        if !declares(specs, &variables[i].0) {
            extra.push(copy_string(&variables[i].0));
            assert(views_of(extra@) =~= keep_where(keys.take(i as int), not_declared).push(keys[i as int]));
        }
    }
    assert(keys.take(nv as int) =~= keys);
    if extra.len() > 0 {
        let sorted = sort_strings(extra);
        return Err(PromptTemplateError::VariableMismatch {
            prompt: String::from_str(prompt_name),
            missing: Vec::new(),
            extra: sorted,
        });
    }
    let ghost mp = missing_pred(variables@);
    let ghost tp = mistyped_pred(variables@);
    let mut missing: Vec<String> = Vec::new();
    let ns = specs.len();
    for i in 0..ns
        invariant
            ns == specs@.len(),
            mp == missing_pred(variables@),
            tp == mistyped_pred(variables@),
            views_of(missing@) == declared_names(keep_where(specs@.take(i as int), mp)),
            forall|j: int| 0 <= j < i ==> !tp(specs@[j]),
            extra_variables(variables@, specs@).len() == 0,
    {
        proof {
            lemma_keep_where_step(specs@, mp, i as int);
            lemma_entry_models_of(variables@);
        }
        let spec = &specs[i];
        match find_key(variables, spec.name.as_str()) {
            None => {
                if spec.required {
                    missing.push(copy_string(&spec.name));
                    assert(views_of(missing@) =~= declared_names(keep_where(specs@.take(i as int), mp)).push(
                        spec.name@,
                    ));
                }
                assert(declared_names(keep_where(specs@.take(i as int), mp).push(*spec)) =~= declared_names(
                    keep_where(specs@.take(i as int), mp),
                ).push(spec.name@));
            },
            Some(k) => {
                let res = validate_json_value_type(&variables[k].1, spec.var_type.as_str(), spec.name.as_str());
                match res {
                    Err(e) => {
                        proof {
                            lemma_first_index_where_unique(specs@, tp, i as int);
                        }
                        return Err(e);
                    },
                    Ok(()) => {},
                }
            },
        }
    }
    proof {
        lemma_first_index_where_unique(specs@, tp, ns as int);
        assert(specs@.take(ns as int) =~= specs@);
    }
    if missing.len() > 0 {
        let sorted = sort_strings(missing);
        return Err(PromptTemplateError::VariableMismatch {
            prompt: String::from_str(prompt_name),
            missing: sorted,
            extra: Vec::new(),
        });
    }
    Ok(())
}

/// The variables of a template pass the checks: no unknown names, every value
/// of its declared type, every required name given.
pub open spec fn runtime_check_passes(vars: Seq<(String, JsonValue)>, specs: Seq<PromptVariable>) -> bool {
    &&& extra_variables(vars, specs).len() == 0
    &&& first_index_where(specs, mistyped_pred(vars)) == specs.len()
    &&& missing_variables(vars, specs).len() == 0
}

/// The outcome of a render, forgetting the text.
pub open spec fn without_text(r: Result<String, PromptTemplateError>) -> Result<(), PromptTemplateError> {
    match r {
        Ok(_) => Ok(()),
        Err(e) => Err(e),
    }
}

/// The outcome of rendering a template with the given variables: the first
/// failed check, else the text or the error message of `tera` (for a
/// template that uses the clock, chance or the environment, only that it is
/// text or a rendering error).
pub open spec fn render_outcome(r: Result<String, PromptTemplateError>, prompt: PromptTemplateData, vars: Seq<(String, JsonValue)>) -> bool {
    if !runtime_check_passes(vars, prompt.variables@) {
        r is Err && runtime_check_outcome(without_text(r), prompt.name@, vars, prompt.variables@)
    } else if renders_deterministically(prompt.template_text@) {
        match tera_render_str_result(prompt.template_text@, json_text_spec(JsonModel::Object(entry_models_of(vars)))) {
            Ok(text) => r matches Ok(s) && s@ == text,
            Err(d) => r matches Err(PromptTemplateError::Rendering { prompt: p, detail }) && p@ == prompt.name@
                && detail@ == d,
        }
    } else {
        r is Ok || (r matches Err(PromptTemplateError::Rendering { prompt: p, .. }) && p@ == prompt.name@)
    }
}

/// Renders a template with the given variables, after checking them against
/// its declarations; the text comes from `tera`.
pub fn render_prompt(prompt: &PromptTemplateData, variables: &Vec<(String, JsonValue)>) -> (r: Result<
    String,
    PromptTemplateError,
>)
    requires
        keys_distinct(entry_keys(variables@)),
        !tera_may_not_return(prompt.template_text@),
    ensures
        render_outcome(r, *prompt, variables@),
{
    let checked = validate_runtime_variables(prompt.name.as_str(), variables, &prompt.variables);
    match checked {
        Err(e) => {
            return Err(e);
        },
        Ok(()) => {
            assert(runtime_check_passes(variables@, prompt.variables@)) by {
                lemma_first_index_where(prompt.variables@, mistyped_pred(variables@));
            }
        },
    }
    let context = json_text(&JsonValue::Object(clone_entries(variables)));
    match tera_render_str(prompt.template_text.as_str(), context.as_str()) {
        Ok(text) => Ok(text),
        Err(detail) => Err(PromptTemplateError::Rendering { prompt: copy_string(&prompt.name), detail }),
    }
}

/// Each string value becomes a JSON string, under the same name.
pub fn prompt_variables_from_str_map(map: &Vec<(String, String)>) -> (r: Vec<(String, JsonValue)>)
    ensures
        r@.len() == map@.len(),
        forall|i: int|
            0 <= i < map@.len() ==> (#[trigger] r@[i]).0@ == map@[i].0@ && r@[i].1@ == JsonModel::Str(
                map@[i].1@,
            ),
{
    let mut out: Vec<(String, JsonValue)> = Vec::new();
    let n = map.len();
    for i in 0..n
        invariant
            n == map@.len(),
            out@.len() == i,
            forall|j: int|
                0 <= j < i ==> (#[trigger] out@[j]).0@ == map@[j].0@ && out@[j].1@ == JsonModel::Str(
                    map@[j].1@,
                ),
    {
        out.push((copy_string(&map[i].0), JsonValue::String(copy_string(&map[i].1))));
    }
    out
}

/// One declaration as written in a template's `variables.yml`.
#[derive(Debug)]
pub struct VariableDef {
    pub name: String,
    pub var_type: String,
    pub required: bool,
}

/// A declaration that does not say whether it is required is required.
pub fn default_required_true() -> (r: bool)
    ensures
        r,
{
    true
}

/// The declarations of `variables.yml`, one list per phase.
#[derive(Debug)]
pub struct VariablesFile {
    pub system_prompt: Vec<VariableDef>,
    pub user_prompt: Vec<VariableDef>,
}

/// A file of a template directory: its name and its text, when it is UTF-8.
#[derive(Debug)]
pub struct PromptFile {
    pub name: String,
    pub contents: Option<String>,
}

/// A template directory: its path (`<category>/<template name>`), its files,
/// and what a YAML reader made of the trimmed text of its `variables.yml`
/// (read only when that file exists and is not blank).
#[derive(Debug)]
pub struct PromptDir {
    pub path: String,
    pub files: Vec<PromptFile>,
    pub variables_yaml: Result<VariablesFile, String>,
}

/// A tree of template directories.
#[derive(Debug)]
pub struct PromptStore {
    pub dirs: Vec<PromptDir>,
}

/// The path of a template's directory.
pub open spec fn template_dir_path(t: PromptTemplate) -> Seq<char> {
    t.spec_category().spec_as_str() + "/"@ + t.spec_name()
}

pub open spec fn dir_paths(dirs: Seq<PromptDir>) -> Seq<Seq<char>> {
    dirs.map_values(|d: PromptDir| d.path@)
}

pub open spec fn file_names(files: Seq<PromptFile>) -> Seq<Seq<char>> {
    files.map_values(|f: PromptFile| f.name@)
}

impl PromptVariable {
    /// The declaration `def`, as a template variable.
    pub fn from_definition(def: &VariableDef) -> (r: PromptVariable)
        ensures
            r.name@ == def.name@,
            r.var_type@ == def.var_type@,
            r.required == def.required,
    {
        PromptVariable { name: copy_string(&def.name), var_type: copy_string(&def.var_type), required: def.required }
    }
}

/// Accepts a declared type that the checks know.
pub fn validate_var_type(var_type: &str) -> (r: Result<(), PromptTemplateError>)
    ensures
        r is Ok <==> known_var_type(var_type@),
        r matches Err(e) ==> e matches PromptTemplateError::VariablesParse { prompt, detail }
            && prompt@ == "variables.yml"@ && detail@ == "unsupported type '"@ + var_type@ + "'"@,
{
    if str_eq(var_type, "str") || str_eq(var_type, "int") || str_eq(var_type, "bool") || str_eq(
        var_type,
        "list[int]",
    ) || str_eq(var_type, "list[str]") || str_eq(var_type, "dict[str, str]") {
        Ok(())
    } else {
        let mut d = String::from_str("unsupported type '");
        d.append(var_type);
        d.append("'");
        Err(PromptTemplateError::VariablesParse { prompt: String::from_str("variables.yml"), detail: d })
    }
}

/// `e` reports a malformed variables file with this prompt name and detail.
pub open spec fn is_parse_error(e: PromptTemplateError, prompt: Seq<char>, detail: Seq<char>) -> bool {
    e matches PromptTemplateError::VariablesParse { prompt: p, detail: d } && p@ == prompt && d@ == detail
}

/// What is wrong with the `i`-th declaration of a list, checked in this order:
/// an unknown type, a blank name, a name declared before.
pub open spec fn def_problem(defs: Seq<VariableDef>, i: int) -> Option<Seq<char>> {
    if !known_var_type(defs[i].var_type@) {
        Some("unsupported type '"@ + defs[i].var_type@ + "'"@)
    } else if trim(defs[i].name@).len() == 0 {
        Some("variable name must be non-empty"@)
    } else if exists|j: int| 0 <= j < i && defs[j].name@ == defs[i].name@ {
        Some("duplicate variable '"@ + defs[i].name@ + "'"@)
    } else {
        None
    }
}

fn contains_string(v: &Vec<String>, s: &String) -> (r: bool)
    ensures
        r == views_of(v@).contains(s@),
{
    let n = v.len();
    for i in 0..n
        invariant
            n == v@.len(),
            forall|j: int| 0 <= j < i ==> v@[j]@ != s@,
    {
        if v[i] == *s {
            assert(views_of(v@)[i as int] == s@);
            return true;
        }
    }
    proof {
        if views_of(v@).contains(s@) {
            let j = choose|j: int| 0 <= j < n && views_of(v@)[j] == s@;
            assert(v@[j]@ == s@);
        }
    }
    false
}

/// Turns declarations into template variables, refusing the first declaration
/// with an unknown type, a blank name or a repeated name.
pub fn variable_defs_to_prompt_variables(defs: &Vec<VariableDef>) -> (r: Result<Vec<PromptVariable>, PromptTemplateError>)
    ensures
        defs_outcome(r, defs@),
{
    let mut seen: Vec<String> = Vec::new();
    let mut out: Vec<PromptVariable> = Vec::new();
    let n = defs.len();
    for i in 0..n
        invariant
            n == defs@.len(),
            out@.len() == i,
            seen@.len() == i,
            forall|j: int| 0 <= j < i ==> def_problem(defs@, j) is None,
            forall|j: int| 0 <= j < i ==> (#[trigger] seen@[j])@ == defs@[j].name@,
            forall|j: int|
                0 <= j < i ==> (#[trigger] out@[j]).name@ == defs@[j].name@ && out@[j].var_type@
                    == defs@[j].var_type@ && out@[j].required == defs@[j].required,
    {
        let def = &defs[i];
        match validate_var_type(def.var_type.as_str()) {
            Err(e) => {
                assert(def_problem(defs@, i as int) is Some);
                return Err(e);
            },
            Ok(()) => {},
        }
        let t = trim_str(def.name.as_str());
        if t.as_str().is_empty() {
            proof {
                assert(t@.len() == 0);
                assert(def_problem(defs@, i as int) is Some);
            }
            return Err(PromptTemplateError::VariablesParse {
                prompt: String::from_str("variables.yml"),
                detail: String::from_str("variable name must be non-empty"),
            });
        }
        proof {
            assert(t@.len() != 0) by {
                if t@.len() == 0 {
                }
            }
        }
        if contains_string(&seen, &def.name) {
            let mut d = String::from_str("duplicate variable '");
            d.append(def.name.as_str());
            d.append("'");
            proof {
                let j = choose|j: int| 0 <= j < i && views_of(seen@)[j] == def.name@;
                assert(defs@[j].name@ == defs@[i as int].name@);
                assert(def_problem(defs@, i as int) is Some);
            }
            return Err(PromptTemplateError::VariablesParse { prompt: String::from_str("variables.yml"), detail: d });
        }
        proof {
            assert forall|j: int| 0 <= j < i implies defs@[j].name@ != defs@[i as int].name@ by {
                assert(views_of(seen@)[j] == seen@[j]@);
            }
            assert(def_problem(defs@, i as int) is None);
        }
        seen.push(copy_string(&def.name));
        out.push(PromptVariable::from_definition(def));
    }
    Ok(out)
}

/// No declaration of the list has a problem.
pub open spec fn defs_ok(defs: Seq<VariableDef>) -> bool {
    forall|i: int| 0 <= i < defs.len() ==> def_problem(defs, i) is None
}

/// `e` reports the first declaration of the list that has a problem.
pub open spec fn defs_error(e: PromptTemplateError, defs: Seq<VariableDef>) -> bool {
    exists|i: int|
        {
            &&& 0 <= i < defs.len()
            &&& forall|j: int| 0 <= j < i ==> def_problem(defs, j) is None
            &&& #[trigger] def_problem(defs, i) is Some
            &&& is_parse_error(e, "variables.yml"@, def_problem(defs, i)->0)
        }
}

/// The template variables are the declarations, one for one.
pub open spec fn vars_match_defs(vs: Seq<PromptVariable>, defs: Seq<VariableDef>) -> bool {
    &&& vs.len() == defs.len()
    &&& forall|i: int|
        0 <= i < defs.len() ==> (#[trigger] vs[i]).name@ == defs[i].name@ && vs[i].var_type@ == defs[i].var_type@
            && vs[i].required == defs[i].required
}

/// The outcome of turning declarations into template variables.
pub open spec fn defs_outcome(r: Result<Vec<PromptVariable>, PromptTemplateError>, defs: Seq<VariableDef>) -> bool {
    match r {
        Ok(vs) => defs_ok(defs) && vars_match_defs(vs@, defs),
        Err(e) => !defs_ok(defs) && defs_error(e, defs),
    }
}

fn find_file(files: &Vec<PromptFile>, name: &str) -> (r: Option<usize>)
    ensures
        ({
            let i = key_index(file_names(files@), name@);
            match r {
                Some(p) => p == i && i < files@.len(),
                None => i == files@.len(),
            }
        }),
{
    let target = String::from_str(name);
    let n = files.len();
    let ghost names = file_names(files@);
    for i in 0..n
        invariant
            n == files@.len(),
            names == file_names(files@),
            target@ == name@,
            forall|j: int| 0 <= j < i ==> names[j] != name@,
    {
        if files[i].name == target {
            proof {
                assert(names[i as int] == name@);
                lemma_key_index_unique(names, name@, i as int);
            }
            return Some(i);
        }
        assert(names[i as int] != name@);
    }
    proof {
        lemma_key_index_unique(names, name@, n as int);
    }
    None
}

/// What is wrong with a directory's `variables.yml`, if anything: a file that
/// is not UTF-8, or text the YAML reader refused.
pub open spec fn variables_file_problem(dir: PromptDir) -> Option<Seq<char>> {
    let fi = key_index(file_names(dir.files@), "variables.yml"@);
    if fi == dir.files@.len() {
        None
    } else {
        match dir.files@[fi].contents {
            None => Some("non-utf8 variables.yml"@),
            Some(c) => if trim(c@).len() == 0 {
                None
            } else {
                match dir.variables_yaml {
                    Ok(_) => None,
                    Err(m) => Some(m@),
                }
            },
        }
    }
}

/// The declarations of a directory's `variables.yml` that are in use: none when
/// the file is missing or blank, else what the YAML reader made of it.
pub open spec fn variables_in_use(dir: PromptDir) -> Option<VariablesFile> {
    let fi = key_index(file_names(dir.files@), "variables.yml"@);
    if fi == dir.files@.len() {
        None
    } else {
        match dir.files@[fi].contents {
            None => None,
            Some(c) => if trim(c@).len() == 0 {
                None
            } else {
                match dir.variables_yaml {
                    Ok(f) => Some(f),
                    Err(_) => None,
                }
            },
        }
    }
}

/// Reads the declarations of a directory's `variables.yml`.
pub fn load_variables_file<'a>(prompt_name: &str, dir: &'a PromptDir) -> (r: Result<Option<&'a VariablesFile>, PromptTemplateError>)
    ensures
        match variables_file_problem(*dir) {
            Some(d) => r matches Err(e) && is_parse_error(e, prompt_name@, d),
            None => r matches Ok(f) && (match f {
                Some(x) => Some(*x),
                None => None,
            }) == variables_in_use(*dir),
        },
{
    match find_file(&dir.files, "variables.yml") {
        None => Ok(None),
        Some(i) => match &dir.files[i].contents {
            None => Err(PromptTemplateError::VariablesParse {
                prompt: String::from_str(prompt_name),
                detail: String::from_str("non-utf8 variables.yml"),
            }),
            Some(c) => {
                let t = trim_str(c.as_str());
                if t.as_str().is_empty() {
                    Ok(None)
                } else {
                    match &dir.variables_yaml {
                        Ok(f) => Ok(Some(f)),
                        Err(m) => Err(PromptTemplateError::VariablesParse {
                            prompt: String::from_str(prompt_name),
                            detail: copy_string(m),
                        }),
                    }
                }
            },
        },
    }
}

/// The declarations that apply to a template's phase.
pub open spec fn phase_defs(dir: PromptDir, t: PromptTemplate) -> Seq<VariableDef> {
    match variables_in_use(dir) {
        None => Seq::empty(),
        Some(f) => match t.spec_phase() {
            PromptPhase::System => f.system_prompt@,
            PromptPhase::User => f.user_prompt@,
        },
    }
}

/// The variables a template declares for its phase.
pub fn load_variables_for_template(prompt_name: &str, dir: &PromptDir, template: PromptTemplate) -> (r: Result<
    Vec<PromptVariable>,
    PromptTemplateError,
>)
    ensures
        match variables_file_problem(*dir) {
            Some(d) => r matches Err(e) && is_parse_error(e, prompt_name@, d),
            None => defs_outcome(r, phase_defs(*dir, template)),
        },
{
    let file = load_variables_file(prompt_name, dir);
    match file {
        Err(e) => Err(e),
        Ok(None) => {
            let empty: Vec<VariableDef> = Vec::new();
            variable_defs_to_prompt_variables(&empty)
        },
        Ok(Some(f)) => match template.phase() {
            PromptPhase::System => variable_defs_to_prompt_variables(&f.system_prompt),
            PromptPhase::User => variable_defs_to_prompt_variables(&f.user_prompt),
        },
    }
}

/// The paths of a directory's files, as the embedded tree lists them.
pub open spec fn file_paths(dir: PromptDir) -> Seq<Seq<char>> {
    dir.files@.map_values(|f: PromptFile| dir.path@ + "/"@ + f.name@)
}

/// The outcome of reading a template's text from its directory.
pub open spec fn template_text_outcome(r: Result<String, PromptTemplateError>, prompt_name: Seq<char>, t: PromptTemplate, dir: PromptDir) -> bool {
    let fi = key_index(file_names(dir.files@), t.spec_template_file_name());
    if fi == dir.files@.len() {
        r matches Err(PromptTemplateError::NotFound(m)) && m@ == prompt_name + "/"@ + t.spec_template_file_name()
            + " (available_files="@ + debug_text_of_strings(file_paths(dir)) + ")"@
    } else {
        match dir.files@[fi].contents {
            None => r matches Err(PromptTemplateError::Rendering { prompt, detail }) && prompt@ == prompt_name
                && detail@ == "unable to read template"@,
            Some(c) => r matches Ok(text) && text@ == c@,
        }
    }
}

/// Reads the text of a template's file from its directory.
pub fn load_template_text(prompt_name: &str, template: PromptTemplate, dir: &PromptDir) -> (r: Result<String, PromptTemplateError>)
    ensures
        template_text_outcome(r, prompt_name@, template, *dir),
{
    let file_name = template.template_file_name();
    match find_file(&dir.files, file_name) {
        None => {
            let mut paths: Vec<String> = Vec::new();
            let n = dir.files.len();
            for i in 0..n
                invariant
                    n == dir.files@.len(),
                    paths@.len() == i,
                    forall|j: int| 0 <= j < i ==> (#[trigger] paths@[j])@ == file_paths(*dir)[j],
            {
                let mut p = copy_string(&dir.path);
                p.append("/");
                p.append(dir.files[i].name.as_str());
                paths.push(p);
            }
            assert(paths@.map_values(|s: String| s@) =~= file_paths(*dir));
            let mut m = String::from_str(prompt_name);
            m.append("/");
            m.append(file_name);
            m.append(" (available_files=");
            let listed = debug_strings(&paths);
            m.append(listed.as_str());
            m.append(")");
            Err(PromptTemplateError::NotFound(m))
        },
        Some(i) => match &dir.files[i].contents {
            Some(text) => Ok(copy_string(text)),
            None => Err(PromptTemplateError::Rendering {
                prompt: String::from_str(prompt_name),
                detail: String::from_str("unable to read template"),
            }),
        },
    }
}

/// `acc` followed by the names among `items` that are neither in `acc` nor
/// earlier among `items`.
pub open spec fn collect_distinct(acc: Seq<Seq<char>>, items: Seq<Option<Seq<char>>>) -> Seq<Seq<char>>
    decreases items.len(),
{
    if items.len() == 0 {
        acc
    } else {
        let d = collect_distinct(acc, items.drop_last());
        match items.last() {
            Some(x) => if d.contains(x) {
                d
            } else {
                d.push(x)
            },
            None => d,
        }
    }
}

/// Names of variables printed with `{{ name`.
pub open spec fn output_var_pattern() -> Seq<char> {
    "\\{\\{\\s*([a-zA-Z_][a-zA-Z0-9_]*)"@
}

/// Names of lists walked with `{% for x in name`.
pub open spec fn for_var_pattern() -> Seq<char> {
    "\\{\\%\\s*for\\s+[a-zA-Z_][a-zA-Z0-9_]*\\s+in\\s+([a-zA-Z_][a-zA-Z0-9_]*)"@
}

/// Names tested or set with `{% if name`, `{% elif name` or `{% set name`.
pub open spec fn block_var_pattern() -> Seq<char> {
    "\\{\\%\\s*(?:if|elif|set)\\s+([a-zA-Z_][a-zA-Z0-9_]*)"@
}

/// The first capture groups of the matches of `pattern` in `text`. The
/// patterns used here compile (`known_valid_pattern`), so the result is
/// always there; the empty list only completes the definition.
pub open spec fn captured(pattern: Seq<char>, text: Seq<char>) -> Seq<Option<Seq<char>>> {
    match regex_captures_result(pattern, text) {
        Some(v) => v,
        None => Seq::empty(),
    }
}

/// The variable names a template's text refers to, each once, in the order the
/// three patterns find them.
pub open spec fn referenced_names(text: Seq<char>) -> Seq<Seq<char>> {
    collect_distinct(
        collect_distinct(collect_distinct(Seq::empty(), captured(output_var_pattern(), text)), captured(for_var_pattern(), text)),
        captured(block_var_pattern(), text),
    )
}

/// The captures of a compiled pattern: those of a known valid pattern always
/// come back.
fn first_groups(pattern: &str, text: &str) -> (r: Vec<Option<String>>)
    requires
        known_valid_pattern(pattern@),
    ensures
        optional_views(r@) == captured(pattern@, text@),
{
    match regex_captures_first_group(pattern, text) {
        Some(v) => v,
        None => Vec::new(),
    }
}

fn add_distinct(out: &mut Vec<String>, items: &Vec<Option<String>>)
    ensures
        views_of(final(out)@) == collect_distinct(views_of(old(out)@), optional_views(items@)),
{
    let ghost acc = views_of(out@);
    let ghost ov = optional_views(items@);
    let n = items.len();
    assert(ov.take(0) =~= Seq::<Option<Seq<char>>>::empty());
    for i in 0..n
        invariant
            n == items@.len(),
            ov == optional_views(items@),
            ov.len() == n,
            views_of(out@) == collect_distinct(acc, ov.take(i as int)),
    {
        assert(ov.take(i + 1).drop_last() =~= ov.take(i as int));
        match &items[i] {
            Some(x) => {
                assert(ov[i as int] == Some(x@));
                if !contains_string(out, x) {
                    out.push(copy_string(x));
                    assert(views_of(out@) =~= collect_distinct(acc, ov.take(i as int)).push(x@));
                }
            },
            None => {
                assert(ov[i as int] is None);
            },
        }
    }
    assert(ov.take(n as int) =~= ov);
}

/// The variable names a template's text refers to, each once.
pub fn extract_template_variables(template: &str) -> (r: Vec<String>)
    ensures
        views_of(r@) == referenced_names(template@),
{
    let a = first_groups("\\{\\{\\s*([a-zA-Z_][a-zA-Z0-9_]*)", template);
    let b = first_groups(
        "\\{\\%\\s*for\\s+[a-zA-Z_][a-zA-Z0-9_]*\\s+in\\s+([a-zA-Z_][a-zA-Z0-9_]*)",
        template,
    );
    let c = first_groups("\\{\\%\\s*(?:if|elif|set)\\s+([a-zA-Z_][a-zA-Z0-9_]*)", template);
    let mut vars: Vec<String> = Vec::new();
    assert(views_of(vars@) =~= Seq::<Seq<char>>::empty());
    add_distinct(&mut vars, &a);
    add_distinct(&mut vars, &b);
    add_distinct(&mut vars, &c);
    vars
}

pub open spec fn not_in(names: Seq<Seq<char>>) -> spec_fn(Seq<char>) -> bool {
    |n: Seq<char>| !names.contains(n)
}

/// Accepts a template whose referenced names are exactly its declared names;
/// else reports the referenced names not declared and the declared names not
/// referenced.
pub fn ensure_variable_consistency(prompt_name: &str, defined: &Vec<String>, referenced: &Vec<String>) -> (r: Result<
    (),
    PromptTemplateError,
>)
    ensures
        ({
            let missing = keep_where(views_of(referenced@), not_in(views_of(defined@)));
            let extra = keep_where(views_of(defined@), not_in(views_of(referenced@)));
            if missing.len() == 0 && extra.len() == 0 {
                r is Ok
            } else {
                r matches Err(PromptTemplateError::VariableMismatch { prompt, missing: m, extra: x })
                    && prompt@ == prompt_name@ && views_of(m@) == missing && views_of(x@) == extra
            }
        }),
{
    let missing = strings_not_in(referenced, defined);
    let extra = strings_not_in(defined, referenced);
    if missing.len() == 0 && extra.len() == 0 {
        return Ok(());
    }
    Err(PromptTemplateError::VariableMismatch { prompt: String::from_str(prompt_name), missing, extra })
}

/// The strings of `a` that are not in `b`, in order.
fn strings_not_in(a: &Vec<String>, b: &Vec<String>) -> (r: Vec<String>)
    ensures
        views_of(r@) == keep_where(views_of(a@), not_in(views_of(b@))),
{
    let ghost av = views_of(a@);
    let ghost pred = not_in(views_of(b@));
    let mut out: Vec<String> = Vec::new();
    let n = a.len();
    for i in 0..n
        invariant
            n == a@.len(),
            av == views_of(a@),
            pred == not_in(views_of(b@)),
            views_of(out@) == keep_where(av.take(i as int), pred),
    {
        proof {
            lemma_keep_where_step(av, pred, i as int);
        }
        if !contains_string(b, &a[i]) {
            out.push(copy_string(&a[i]));
            assert(views_of(out@) =~= keep_where(av.take(i as int), pred).push(av[i as int]));
        }
    }
    assert(av.take(n as int) =~= av);
    out
}

/// Finds a template's directory in the tree.
pub fn prompt_dir<'a>(store: &'a PromptStore, template: PromptTemplate) -> (r: Result<&'a PromptDir, PromptTemplateError>)
    ensures
        ({
            let di = key_index(dir_paths(store.dirs@), template_dir_path(template));
            if di < store.dirs@.len() {
                r matches Ok(d) && *d == store.dirs@[di]
            } else {
                r matches Err(PromptTemplateError::NotFound(p)) && p@ == template_dir_path(template)
            }
        }),
{
    let mut path = String::from_str(template.folder_path());
    path.append("/");
    path.append(template.name());
    let n = store.dirs.len();
    let ghost paths = dir_paths(store.dirs@);
    for i in 0..n
        invariant
            n == store.dirs@.len(),
            paths == dir_paths(store.dirs@),
            path@ == template_dir_path(template),
            forall|j: int| 0 <= j < i ==> paths[j] != path@,
    {
        if store.dirs[i].path == path {
            proof {
                assert(paths[i as int] == path@);
                lemma_key_index_unique(paths, path@, i as int);
            }
            return Ok(&store.dirs[i]);
        }
        assert(paths[i as int] != path@);
    }
    proof {
        lemma_key_index_unique(paths, path@, n as int);
    }
    Err(PromptTemplateError::NotFound(path))
}

/// The text of a template's file in its directory, when the file is there and readable.
pub open spec fn template_text_of(t: PromptTemplate, dir: PromptDir) -> Option<Seq<char>> {
    let fi = key_index(file_names(dir.files@), t.spec_template_file_name());
    if fi == dir.files@.len() {
        None
    } else {
        match dir.files@[fi].contents {
            None => None,
            Some(c) => Some(c@),
        }
    }
}

/// `e` is the error of reading a template's text from its directory.
pub open spec fn is_text_error(e: PromptTemplateError, prompt_name: Seq<char>, t: PromptTemplate, dir: PromptDir) -> bool {
    let fi = key_index(file_names(dir.files@), t.spec_template_file_name());
    if fi == dir.files@.len() {
        e matches PromptTemplateError::NotFound(m) && m@ == prompt_name + "/"@ + t.spec_template_file_name()
            + " (available_files="@ + debug_text_of_strings(file_paths(dir)) + ")"@
    } else {
        e matches PromptTemplateError::Rendering { prompt, detail } && prompt@ == prompt_name && detail@
            == "unable to read template"@
    }
}

/// The names the declarations declare.
pub open spec fn def_names(defs: Seq<VariableDef>) -> Seq<Seq<char>> {
    defs.map_values(|d: VariableDef| d.name@)
}

/// The outcome of loading a template from a tree: its directory, its text, its
/// declarations, and the agreement of the names the text refers to with the
/// declared names, checked in that order.
pub open spec fn load_outcome(r: Result<PromptTemplateData, PromptTemplateError>, store: PromptStore, t: PromptTemplate) -> bool {
    let name = t.spec_name();
    let di = key_index(dir_paths(store.dirs@), template_dir_path(t));
    if di == store.dirs@.len() {
        r matches Err(PromptTemplateError::NotFound(p)) && p@ == template_dir_path(t)
    } else {
        let dir = store.dirs@[di];
        match template_text_of(t, dir) {
            None => r matches Err(e) && is_text_error(e, name, t, dir),
            Some(text) => match variables_file_problem(dir) {
                Some(d) => r matches Err(e) && is_parse_error(e, name, d),
                None => {
                    let defs = phase_defs(dir, t);
                    if !defs_ok(defs) {
                        r matches Err(e) && defs_error(e, defs)
                    } else {
                        let refs = referenced_names(text);
                        if refs.len() > 0 && !has_key(file_names(dir.files@), "variables.yml"@) {
                            r matches Err(e) && is_parse_error(
                                e,
                                name,
                                "template uses variables but variables.yml is missing"@,
                            )
                        } else {
                            let missing = keep_where(refs, not_in(def_names(defs)));
                            let extra = keep_where(def_names(defs), not_in(refs));
                            if missing.len() > 0 || extra.len() > 0 {
                                r matches Err(PromptTemplateError::VariableMismatch { prompt, missing: m, extra: x })
                                    && prompt@ == name && views_of(m@) == missing && views_of(x@) == extra
                            } else {
                                r matches Ok(data) && data.name@ == name && data.template_text@ == text
                                    && vars_match_defs(data.variables@, defs)
                            }
                        }
                    }
                },
            },
        }
    }
}

/// Loads a template from a tree: its text and its declared variables, checked
/// against the names the text refers to.
pub fn load_prompt(store: &PromptStore, template: PromptTemplate) -> (r: Result<PromptTemplateData, PromptTemplateError>)
    ensures
        load_outcome(r, *store, template),
{
    let prompt_name = template.name();
    proof {
        lemma_key_index(dir_paths(store.dirs@), template_dir_path(template));
    }
    let dir = match prompt_dir(store, template) {
        Ok(d) => d,
        Err(e) => {
            return Err(e);
        },
    };
    let template_text = match load_template_text(prompt_name, template, dir) {
        Ok(t) => t,
        Err(e) => {
            return Err(e);
        },
    };
    let yml_present = find_file(&dir.files, "variables.yml").is_some();
    proof {
        lemma_key_index(file_names(dir.files@), "variables.yml"@);
    }
    let variables = match load_variables_for_template(prompt_name, dir, template) {
        Ok(v) => v,
        Err(e) => {
            return Err(e);
        },
    };
    let mut defined_names: Vec<String> = Vec::new();
    let nv = variables.len();
    for i in 0..nv
        invariant
            nv == variables@.len(),
            defined_names@.len() == i,
            forall|j: int| 0 <= j < i ==> (#[trigger] defined_names@[j])@ == variables@[j].name@,
    {
        defined_names.push(copy_string(&variables[i].name));
    }
    let referenced = extract_template_variables(template_text.as_str());
    if referenced.len() > 0 && !yml_present {
        return Err(PromptTemplateError::VariablesParse {
            prompt: String::from_str(prompt_name),
            detail: String::from_str("template uses variables but variables.yml is missing"),
        });
    }
    proof {
        assert(views_of(defined_names@) =~= def_names(phase_defs(*dir, template)));
    }
    match ensure_variable_consistency(prompt_name, &defined_names, &referenced) {
        Err(e) => {
            return Err(e);
        },
        Ok(()) => {},
    }
    Ok(PromptTemplateData { name: String::from_str(prompt_name), template_text, variables })
}

/// A template loaded from a tree has the name it was asked for and the text
/// of its file in the tree; its declared variables have distinct, non-blank
/// names of the supported types, and those names are exactly the names its
/// text refers to.
pub proof fn lemma_loaded_template_agrees(store: PromptStore, t: PromptTemplate, data: PromptTemplateData)
    requires
        load_outcome(Ok(data), store, t),
    ensures
        data.name@ == t.spec_name(),
        ({
            let di = key_index(dir_paths(store.dirs@), template_dir_path(t));
            0 <= di < store.dirs@.len() && template_text_of(t, store.dirs@[di]) == Some(data.template_text@)
        }),
        forall|i: int, j: int|
            0 <= i < j < data.variables@.len() ==> (#[trigger] data.variables@[i]).name@
                != (#[trigger] data.variables@[j]).name@,
        forall|i: int|
            0 <= i < data.variables@.len() ==> trim((#[trigger] data.variables@[i]).name@).len() > 0
                && known_var_type(data.variables@[i].var_type@),
        forall|n: Seq<char>|
            #[trigger] referenced_names(data.template_text@).contains(n) <==> exists|i: int|
                0 <= i < data.variables@.len() && (#[trigger] data.variables@[i]).name@ == n,
{
    lemma_key_index(dir_paths(store.dirs@), template_dir_path(t));
    let di = key_index(dir_paths(store.dirs@), template_dir_path(t));
    let dir = store.dirs@[di];
    let text = template_text_of(t, dir)->0;
    let defs = phase_defs(dir, t);
    let refs = referenced_names(text);
    let names = def_names(defs);
    let vs = data.variables@;
    assert(defs_ok(defs));
    assert forall|i: int, j: int| 0 <= i < j < vs.len() implies (#[trigger] vs[i]).name@ != (#[trigger] vs[j]).name@ by {
        assert(def_problem(defs, j) is None);
    }
    assert forall|i: int| 0 <= i < vs.len() implies trim((#[trigger] vs[i]).name@).len() > 0
        && known_var_type(vs[i].var_type@) by {
        assert(def_problem(defs, i) is None);
    }
    lemma_keep_where_none(refs, not_in(names));
    lemma_keep_where_none(names, not_in(refs));
    assert forall|n: Seq<char>| #[trigger] refs.contains(n) implies exists|i: int|
        0 <= i < vs.len() && (#[trigger] vs[i]).name@ == n by {
        let k = choose|k: int| 0 <= k < refs.len() && refs[k] == n;
        assert(!not_in(names)(refs[k]));
        let i = choose|i: int| 0 <= i < names.len() && names[i] == n;
        assert(vs[i].name@ == n);
    }
    assert forall|n: Seq<char>| (exists|i: int| 0 <= i < vs.len() && (#[trigger] vs[i]).name@ == n) implies
        #[trigger] refs.contains(n) by {
        let i = choose|i: int| 0 <= i < vs.len() && (#[trigger] vs[i]).name@ == n;
        assert(names[i] == n);
        assert(!not_in(refs)(names[i]));
    }
}

impl PromptStore {
    /// An empty template tree: the library carries no templates of its own, so
    /// every lookup in this tree reports `NotFound`. A tree with templates is
    /// built from files with `PromptStore { dirs }` and used through the
    /// `*_from` functions.
    pub fn embedded() -> (r: PromptStore)
        ensures
            r.dirs@.len() == 0,
    {
        PromptStore { dirs: Vec::new() }
    }
}

/// Loads a template, with its declared variables, from a tree.
pub fn get_prompt_template_from(store: &PromptStore, template: PromptTemplate) -> (r: Result<
    PromptTemplateData,
    PromptTemplateError,
>)
    ensures
        load_outcome(r, *store, template),
{
    load_prompt(store, template)
}

/// Looks a template up in the empty tree of `PromptStore::embedded`: it
/// always reports `NotFound` with the template's directory. Loading from a
/// tree with templates is `get_prompt_template_from`.
pub fn get_prompt_template(template: PromptTemplate) -> (r: Result<PromptTemplateData, PromptTemplateError>)
    ensures
        r matches Err(PromptTemplateError::NotFound(p)) && p@ == template_dir_path(template),
{
    let store = PromptStore::embedded();
    let r = load_prompt(&store, template);
    proof {
        lemma_key_index(dir_paths(store.dirs@), template_dir_path(template));
    }
    r
}

/// A handle on the template tree; it needs no configuration.
pub struct PromptTemplateClient;

impl PromptTemplateClient {
    pub fn from_env() -> (r: Result<PromptTemplateClient, PromptTemplateError>)
        ensures
            r is Ok,
    {
        Ok(PromptTemplateClient)
    }
}

/// The text of the template that is asked for, where the tree has one, uses
/// no form on which `tera` may panic or never return.
pub open spec fn requested_text_renders_safely(store: PromptStore, t: PromptTemplate) -> bool {
    let di = key_index(dir_paths(store.dirs@), template_dir_path(t));
    0 <= di < store.dirs@.len() ==> match template_text_of(t, store.dirs@[di]) {
        Some(text) => !tera_may_not_return(text),
        None => true,
    }
}

/// Loads a template from a tree and renders it with the given variables.
pub fn get_and_render_prompt_from(
    store: &PromptStore,
    template: PromptTemplate,
    variables: &Vec<(String, JsonValue)>,
) -> (r: Result<String, PromptTemplateError>)
    requires
        keys_distinct(entry_keys(variables@)),
        requested_text_renders_safely(*store, template),
    ensures
        (forall|e: PromptTemplateError| load_outcome(Err(e), *store, template) ==> r is Err),
        r matches Err(e) && load_outcome(Err(e), *store, template)
            || exists|data: PromptTemplateData| load_outcome(Ok(data), *store, template) && render_outcome(r, data, variables@),
{
    let prompt = match load_prompt(store, template) {
        Ok(p) => p,
        Err(e) => {
            return Err(e);
        },
    };
    proof {
        lemma_key_index(dir_paths(store.dirs@), template_dir_path(template));
    }
    render_prompt(&prompt, variables)
}

/// Looks a template up in the empty tree of `PromptStore::embedded`, so it
/// always reports `NotFound` with the template's directory; the client, the
/// label and the variables are not consulted. Loading and rendering from a
/// tree with templates is `get_and_render_prompt_from`.
pub fn get_and_render_prompt(
    _client: &PromptTemplateClient,
    template: PromptTemplate,
    variables: &Vec<(String, JsonValue)>,
    _label: Option<&str>,
) -> (r: Result<String, PromptTemplateError>)
    requires
        keys_distinct(entry_keys(variables@)),
    ensures
        r matches Err(PromptTemplateError::NotFound(p)) && p@ == template_dir_path(template),
{
    match get_prompt_template(template) {
        Ok(prompt) => render_prompt(&prompt, variables),
        Err(e) => Err(e),
    }
}

} // verus!
