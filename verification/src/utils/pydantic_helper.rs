//! Serialization gated by `SkipJsonSchema`: fields a type marks as excluded
//! are taken out of its JSON form when the schema is enforced.
use vstd::prelude::*;

use crate::json::{
    entry_models_of, lemma_entry_models_insert, lemma_entry_models_of, lemma_entry_models_push,
    lemma_entry_models_remove, lemma_insert_keeps_distinct, lemma_lookup_insert_other,
    lemma_lookup_insert_same, lemma_lookup_remove_other, lemma_lookup_remove_same,
    lemma_models_insert, lemma_models_of, lemma_models_remove, lemma_remove_keeps_distinct,
    model_insert, model_keys, model_lookup, model_remove, JsonModel, JsonValue,
};
use crate::keyed::{entry_keys, find_key, keys_distinct, lemma_key_index};
use crate::text::{decimal, decimal_string, parse_usize, parse_usize_str};

verus! {

/// An object with no entries.
pub open spec fn is_empty_object(v: JsonModel) -> bool {
    v matches JsonModel::Object(m) && m.len() == 0
}

/// The value with the exclusion rules applied. Rules apply to objects and
/// arrays alone, and only when they are themselves an object: a rule `true`
/// removes an object's field or turns an array's element into `null`; a rule
/// that is an object applies to the field or element, and an object field left
/// empty by it is removed. Array elements are named by their decimal index.
pub open spec fn exclude_spec(target: JsonModel, exclude: JsonModel) -> JsonModel
    decreases exclude, 0nat,
{
    match exclude {
        JsonModel::Object(rules) => match target {
            JsonModel::Object(obj) => JsonModel::Object(exclude_in_object(obj, rules, rules.len())),
            JsonModel::Array(arr) => JsonModel::Array(exclude_in_array(arr, rules, rules.len())),
            _ => target,
        },
        _ => target,
    }
}

/// An object's entries with the first `n` rules applied, one after the other.
pub open spec fn exclude_in_object(
    obj: Seq<(Seq<char>, JsonModel)>,
    rules: Seq<(Seq<char>, JsonModel)>,
    n: nat,
) -> Seq<(Seq<char>, JsonModel)>
    decreases rules, n,
{
    if n == 0 || n > rules.len() {
        obj
    } else {
        let prev = exclude_in_object(obj, rules, (n - 1) as nat);
        let key = rules[n - 1].0;
        let rule = rules[n - 1].1;
        match model_lookup(prev, key) {
            None => prev,
            Some(v) => match rule {
                JsonModel::Bool(b) => if b {
                    model_remove(prev, key)
                } else {
                    prev
                },
                JsonModel::Object(_) => {
                    let nv = exclude_spec(v, rule);
                    if is_empty_object(nv) {
                        model_remove(prev, key)
                    } else {
                        model_insert(prev, key, nv)
                    }
                },
                _ => prev,
            },
        }
    }
}

/// An array's elements with the first `n` rules applied, one after the other.
pub open spec fn exclude_in_array(arr: Seq<JsonModel>, rules: Seq<(Seq<char>, JsonModel)>, n: nat) -> Seq<JsonModel>
    decreases rules, n,
{
    if n == 0 || n > rules.len() {
        arr
    } else {
        let prev = exclude_in_array(arr, rules, (n - 1) as nat);
        let rule = rules[n - 1].1;
        match parse_usize(rules[n - 1].0) {
            Some(i) => if i < prev.len() {
                match rule {
                    JsonModel::Bool(b) => if b {
                        prev.update(i as int, JsonModel::Null)
                    } else {
                        prev
                    },
                    JsonModel::Object(_) => prev.update(i as int, exclude_spec(prev[i as int], rule)),
                    _ => prev,
                }
            } else {
                prev
            },
            None => prev,
        }
    }
}

/// One rule applied to an object keeps its keys distinct, and keeps a key
/// that the object lacks absent.
proof fn lemma_exclude_step(obj: Seq<(Seq<char>, JsonModel)>, rules: Seq<(Seq<char>, JsonModel)>, n: nat, k: Seq<char>)
    requires
        0 < n <= rules.len(),
        keys_distinct(model_keys(exclude_in_object(obj, rules, (n - 1) as nat))),
    ensures
        keys_distinct(model_keys(exclude_in_object(obj, rules, n))),
        model_lookup(exclude_in_object(obj, rules, (n - 1) as nat), k) is None ==> model_lookup(
            exclude_in_object(obj, rules, n),
            k,
        ) is None,
{
    let prev = exclude_in_object(obj, rules, (n - 1) as nat);
    let key = rules[n - 1].0;
    lemma_remove_keeps_distinct(prev, key);
    if key != k {
        lemma_lookup_remove_other(prev, key, k);
    }
    match model_lookup(prev, key) {
        Some(v) => {
            let nv = exclude_spec(v, rules[n - 1].1);
            lemma_insert_keeps_distinct(prev, key, nv);
            if key != k {
                lemma_lookup_insert_other(prev, key, nv, k);
            }
        },
        None => {},
    }
}

/// Rules applied after a key is gone do not bring it back.
proof fn lemma_exclude_keeps_absent(
    obj: Seq<(Seq<char>, JsonModel)>,
    rules: Seq<(Seq<char>, JsonModel)>,
    m: nat,
    n: nat,
    k: Seq<char>,
)
    requires
        m <= n <= rules.len(),
        keys_distinct(model_keys(exclude_in_object(obj, rules, m))),
        model_lookup(exclude_in_object(obj, rules, m), k) is None,
    ensures
        keys_distinct(model_keys(exclude_in_object(obj, rules, n))),
        model_lookup(exclude_in_object(obj, rules, n), k) is None,
    decreases n,
{
    if n > m {
        lemma_exclude_keeps_absent(obj, rules, m, (n - 1) as nat, k);
        lemma_exclude_step(obj, rules, n, k);
    }
}

/// Applying rules to an object with no repeated key keeps it so.
proof fn lemma_exclude_keeps_distinct(obj: Seq<(Seq<char>, JsonModel)>, rules: Seq<(Seq<char>, JsonModel)>, n: nat)
    requires
        n <= rules.len(),
        keys_distinct(model_keys(obj)),
    ensures
        keys_distinct(model_keys(exclude_in_object(obj, rules, n))),
    decreases n,
{
    if n > 0 {
        lemma_exclude_keeps_distinct(obj, rules, (n - 1) as nat);
        lemma_exclude_step(obj, rules, n, Seq::empty());
    }
}

/// A field that a rule marks `true` is absent once the rules are applied to an
/// object with no repeated key, whatever the other rules are.
pub proof fn lemma_skipped_field_excluded(obj: Seq<(Seq<char>, JsonModel)>, rules: Seq<(Seq<char>, JsonModel)>, i: int)
    requires
        keys_distinct(model_keys(obj)),
        0 <= i < rules.len(),
        rules[i].1 == JsonModel::Bool(true),
    ensures
        exclude_spec(JsonModel::Object(obj), JsonModel::Object(rules)).get(rules[i].0) is None,
{
    let k = rules[i].0;
    let m = (i + 1) as nat;
    lemma_exclude_keeps_distinct(obj, rules, i as nat);
    let prev = exclude_in_object(obj, rules, i as nat);
    lemma_lookup_remove_same(prev, k);
    lemma_exclude_keeps_distinct(obj, rules, m);
    lemma_exclude_keeps_absent(obj, rules, m, rules.len(), k);
}

/// A key the object lacks is not brought in by the rules.
pub proof fn lemma_exclude_adds_no_field(obj: Seq<(Seq<char>, JsonModel)>, rules: Seq<(Seq<char>, JsonModel)>, k: Seq<char>)
    requires
        keys_distinct(model_keys(obj)),
        model_lookup(obj, k) is None,
    ensures
        exclude_spec(JsonModel::Object(obj), JsonModel::Object(rules)).get(k) is None,
{
    lemma_exclude_keeps_absent(obj, rules, 0, rules.len(), k);
}

/// Rules for other keys leave what a key reads unchanged.
proof fn lemma_exclude_other_keys(
    obj: Seq<(Seq<char>, JsonModel)>,
    rules: Seq<(Seq<char>, JsonModel)>,
    m: nat,
    n: nat,
    k: Seq<char>,
)
    requires
        m <= n <= rules.len(),
        forall|j: int| m <= j < n ==> (#[trigger] rules[j]).0 != k,
    ensures
        model_lookup(exclude_in_object(obj, rules, n), k) == model_lookup(exclude_in_object(obj, rules, m), k),
    decreases n,
{
    if n > m {
        lemma_exclude_other_keys(obj, rules, m, (n - 1) as nat, k);
        let prev = exclude_in_object(obj, rules, (n - 1) as nat);
        let key = rules[n - 1].0;
        assert(key != k);
        lemma_lookup_remove_other(prev, key, k);
        match model_lookup(prev, key) {
            Some(v) => {
                lemma_lookup_insert_other(prev, key, exclude_spec(v, rules[n - 1].1), k);
            },
            None => {},
        }
    }
}

/// A field that a nested rule marks `true` is absent from the field it
/// applies to, once the rules are applied: for objects with no repeated key
/// and rules with no repeated key (as serde's maps are), the rule
/// `{k: {f: true}}` leaves `k` either removed or without `f`.
pub proof fn lemma_nested_skipped_field_excluded(
    obj: Seq<(Seq<char>, JsonModel)>,
    rules: Seq<(Seq<char>, JsonModel)>,
    i: int,
    sub: Seq<(Seq<char>, JsonModel)>,
    j: int,
)
    requires
        keys_distinct(model_keys(obj)),
        keys_distinct(model_keys(rules)),
        0 <= i < rules.len(),
        rules[i].1 == JsonModel::Object(sub),
        0 <= j < sub.len(),
        sub[j].1 == JsonModel::Bool(true),
        forall|inner: Seq<(Seq<char>, JsonModel)>|
            model_lookup(obj, rules[i].0) == Some(JsonModel::Object(inner)) ==> keys_distinct(
                #[trigger] model_keys(inner),
            ),
    ensures
        match exclude_spec(JsonModel::Object(obj), JsonModel::Object(rules)).get(rules[i].0) {
            Some(v) => v.get(sub[j].0) is None,
            None => true,
        },
{
    let k = rules[i].0;
    let f = sub[j].0;
    assert forall|t: int| 0 <= t < rules.len() && t != i implies (#[trigger] rules[t]).0 != k by {
        assert(model_keys(rules)[t] == rules[t].0);
        assert(model_keys(rules)[i] == rules[i].0);
    }
    lemma_exclude_other_keys(obj, rules, 0, i as nat, k);
    lemma_exclude_keeps_distinct(obj, rules, i as nat);
    let prev = exclude_in_object(obj, rules, i as nat);
    let cur = exclude_in_object(obj, rules, (i + 1) as nat);
    match model_lookup(prev, k) {
        Some(v) => {
            let nv = exclude_spec(v, rules[i].1);
            match v {
                JsonModel::Object(ve) => {
                    lemma_skipped_field_excluded(ve, sub, j);
                },
                _ => {},
            }
            assert(nv.get(f) is None);
            lemma_lookup_remove_same(prev, k);
            lemma_lookup_insert_same(prev, k, nv);
            assert(match model_lookup(cur, k) {
                Some(w) => w.get(f) is None,
                None => true,
            });
        },
        None => {},
    }
    lemma_exclude_other_keys(obj, rules, (i + 1) as nat, rules.len(), k);
}

/// Enforcing the schema leaves out each field that a nested rule of the
/// value marks `true`, from the field the rule applies to (for objects and
/// rules with no repeated key).
pub proof fn lemma_gated_leaves_out_nested_skipped(
    obj: Seq<(Seq<char>, JsonModel)>,
    rules: Seq<(Seq<char>, JsonModel)>,
    i: int,
    sub: Seq<(Seq<char>, JsonModel)>,
    j: int,
)
    requires
        keys_distinct(model_keys(obj)),
        keys_distinct(model_keys(rules)),
        0 <= i < rules.len(),
        rules[i].1 == JsonModel::Object(sub),
        0 <= j < sub.len(),
        sub[j].1 == JsonModel::Bool(true),
        forall|inner: Seq<(Seq<char>, JsonModel)>|
            model_lookup(obj, rules[i].0) == Some(JsonModel::Object(inner)) ==> keys_distinct(
                #[trigger] model_keys(inner),
            ),
    ensures
        match gated_spec(JsonModel::Object(obj), Some(JsonModel::Object(rules)), true).get(rules[i].0) {
            Some(v) => v.get(sub[j].0) is None,
            None => true,
        },
{
    lemma_nested_skipped_field_excluded(obj, rules, i, sub, j);
}

/// A field that no rule names keeps its value when the rules are applied.
pub proof fn lemma_exclude_keeps_unmentioned(
    obj: Seq<(Seq<char>, JsonModel)>,
    rules: Seq<(Seq<char>, JsonModel)>,
    k: Seq<char>,
)
    requires
        forall|j: int| 0 <= j < rules.len() ==> (#[trigger] rules[j]).0 != k,
    ensures
        exclude_spec(JsonModel::Object(obj), JsonModel::Object(rules)).get(k) == model_lookup(obj, k),
{
    lemma_exclude_other_keys(obj, rules, 0, rules.len(), k);
}

/// Enforcing the schema keeps the value of each field that the value's rules
/// do not name.
pub proof fn lemma_gated_keeps_unmentioned(
    obj: Seq<(Seq<char>, JsonModel)>,
    rules: Seq<(Seq<char>, JsonModel)>,
    k: Seq<char>,
)
    requires
        forall|j: int| 0 <= j < rules.len() ==> (#[trigger] rules[j]).0 != k,
    ensures
        gated_spec(JsonModel::Object(obj), Some(JsonModel::Object(rules)), true).get(k) == model_lookup(obj, k),
{
    lemma_exclude_keeps_unmentioned(obj, rules, k);
}

/// Serializing without enforcing the schema keeps every field.
pub proof fn lemma_ungated_keeps_everything(serialized: JsonModel, rules: Option<JsonModel>)
    ensures
        gated_spec(serialized, rules, false) == serialized,
{
}

/// Enforcing the schema on an object with no repeated key leaves out each
/// field that the value's rules mark `true`.
pub proof fn lemma_gated_leaves_out_skipped(
    obj: Seq<(Seq<char>, JsonModel)>,
    rules: Seq<(Seq<char>, JsonModel)>,
    i: int,
)
    requires
        keys_distinct(model_keys(obj)),
        0 <= i < rules.len(),
        rules[i].1 == JsonModel::Bool(true),
    ensures
        gated_spec(JsonModel::Object(obj), Some(JsonModel::Object(rules)), true).get(rules[i].0) is None,
{
    lemma_skipped_field_excluded(obj, rules, i);
}

/// Whether the value is an object with no entries.
pub fn is_empty(value: &JsonValue) -> (r: bool)
    ensures
        r == is_empty_object(value@),
{
    match value {
        JsonValue::Object(m) => {
            proof {
                lemma_entry_models_of(m@);
            }
            m.len() == 0
        },
        _ => false,
    }
}

/// Applies exclusion rules to a value in place.
pub fn apply_exclude(target: &mut JsonValue, exclude: &JsonValue)
    ensures
        final(target)@ == exclude_spec(old(target)@, exclude@),
    decreases exclude, 2nat,
{
    match exclude {
        JsonValue::Object(rules) => {
            proof {
                lemma_entry_models_of(rules@);
            }
            match target {
                JsonValue::Object(obj) => {
                    apply_exclude_to_object(obj, rules);
                },
                JsonValue::Array(arr) => {
                    apply_exclude_to_array(arr, rules);
                },
                _ => {},
            }
        },
        _ => {},
    }
}

fn apply_exclude_to_object(obj: &mut Vec<(String, JsonValue)>, rules: &Vec<(String, JsonValue)>)
    ensures
        entry_models_of(final(obj)@) == exclude_in_object(
            entry_models_of(old(obj)@),
            entry_models_of(rules@),
            rules@.len(),
        ),
    decreases rules, 1nat,
{
    let ghost orig = entry_models_of(obj@);
    let ghost rm = entry_models_of(rules@);
    proof {
        lemma_entry_models_of(rules@);
    }
    let n = rules.len();
    for i in 0..n
        invariant
            n == rules@.len(),
            rm == entry_models_of(rules@),
            rm.len() == n,
            forall|j: int| 0 <= j < n ==> #[trigger] rm[j] == (rules@[j].0@, rules@[j].1@),
            entry_models_of(obj@) == exclude_in_object(orig, rm, i as nat),
    {
        let ghost prev = entry_models_of(obj@);
        proof {
            lemma_entry_models_of(obj@);
            assert(rm[i as int] == (rules@[i as int].0@, rules@[i as int].1@));
        }
        let key = &rules[i].0;
        let rule = &rules[i].1;
        match find_key(obj, key.as_str()) {
            None => {},
            Some(k) => {
                match rule {
                    JsonValue::Bool(b) => {
                        if *b {
                            proof {
                                lemma_entry_models_remove(obj@, k as int);
                            }
                            obj.remove(k);
                        }
                    },
                    JsonValue::Object(_) => {
                        proof {
                            assert(decreases_to!(rules@[i as int] => rules@[i as int].1));
                            assert(decreases_to!(rules@ => rules@[i as int]));
                            assert(decreases_to!(*rules => rules@));
                        }
                        let ghost before = obj@;
                        proof {
                            lemma_key_index(entry_keys(before), key@);
                            assert(entry_keys(before)[k as int] == before[k as int].0@);
                        }
                        let (kk, mut v) = obj.remove(k);
                        proof {
                            lemma_entry_models_remove(before, k as int);
                            assert(kk@ == key@);
                        }
                        apply_exclude(&mut v, rule);
                        if !is_empty(&v) {
                            let ghost removed = obj@;
                            obj.insert(k, (kk, v));
                            proof {
                                lemma_entry_models_insert(removed, k as int, obj@[k as int]);
                                assert(prev.remove(k as int).insert(k as int, (key@, v@)) =~= prev.update(
                                    k as int,
                                    (key@, v@),
                                ));
                                assert(entry_models_of(obj@) =~= prev.update(k as int, (key@, v@)));
                            }
                        }
                    },
                    _ => {},
                }
            },
        }
    }
}

fn apply_exclude_to_array(arr: &mut Vec<JsonValue>, rules: &Vec<(String, JsonValue)>)
    ensures
        crate::json::models_of(final(arr)@) == exclude_in_array(
            crate::json::models_of(old(arr)@),
            entry_models_of(rules@),
            rules@.len(),
        ),
    decreases rules, 1nat,
{
    let ghost orig = crate::json::models_of(arr@);
    let ghost rm = entry_models_of(rules@);
    proof {
        lemma_entry_models_of(rules@);
    }
    let n = rules.len();
    for i in 0..n
        invariant
            n == rules@.len(),
            rm == entry_models_of(rules@),
            rm.len() == n,
            forall|j: int| 0 <= j < n ==> #[trigger] rm[j] == (rules@[j].0@, rules@[j].1@),
            crate::json::models_of(arr@) == exclude_in_array(orig, rm, i as nat),
    {
        let ghost prev = crate::json::models_of(arr@);
        proof {
            lemma_models_of(arr@);
            assert(rm[i as int] == (rules@[i as int].0@, rules@[i as int].1@));
        }
        let rule = &rules[i].1;
        match parse_usize_str(rules[i].0.as_str()) {
            None => {},
            Some(idx) => {
                if idx < arr.len() {
                    match rule {
                        JsonValue::Bool(b) => {
                            if *b {
                                let ghost before = arr@;
                                arr.set(idx, JsonValue::Null);
                                proof {
                                    lemma_models_of(arr@);
                                    assert(crate::json::models_of(arr@) =~= prev.update(idx as int, JsonModel::Null));
                                }
                            }
                        },
                        JsonValue::Object(_) => {
                            proof {
                                assert(decreases_to!(rules@[i as int] => rules@[i as int].1));
                                assert(decreases_to!(rules@ => rules@[i as int]));
                                assert(decreases_to!(*rules => rules@));
                            }
                            let ghost before = arr@;
                            let mut v = arr.remove(idx);
                            proof {
                                lemma_models_remove(before, idx as int);
                            }
                            apply_exclude(&mut v, rule);
                            let ghost removed = arr@;
                            arr.insert(idx, v);
                            proof {
                                lemma_models_insert(removed, idx as int, v);
                                assert(crate::json::models_of(arr@) =~= prev.update(
                                    idx as int,
                                    exclude_spec(prev[idx as int], rule@),
                                ));
                            }
                        },
                        _ => {},
                    }
                }
            },
        }
    }
}

/// Types that name fields to exclude when `SkipJsonSchema` is enforced. The
/// rules are the type's own business: nothing is assumed of what an
/// implementation returns.
pub trait SkipJsonSchema {
    /// Returns the nested map describing which fields to exclude.
    fn skip_json_schema_fields(&self) -> Option<JsonValue>;
}

/// The rules of a list, from the rules of its first `n` items: one entry per
/// item that has rules, under the item's decimal index.
pub open spec fn indexed_skip_entries(item_rules: Seq<Option<JsonModel>>, n: nat) -> Seq<(Seq<char>, JsonModel)>
    decreases n,
{
    if n == 0 || n > item_rules.len() {
        Seq::empty()
    } else {
        let prev = indexed_skip_entries(item_rules, (n - 1) as nat);
        match item_rules[n - 1] {
            Some(e) => prev.push((decimal((n - 1) as nat), e)),
            None => prev,
        }
    }
}

/// The rules of a list whose items have the given rules: none when no item
/// has any.
pub open spec fn list_rules_spec(item_rules: Seq<Option<JsonModel>>) -> Option<JsonModel> {
    let entries = indexed_skip_entries(item_rules, item_rules.len());
    if entries.len() == 0 {
        None
    } else {
        Some(JsonModel::Object(entries))
    }
}

/// Optional values, by their models.
pub open spec fn option_models(items: Seq<Option<JsonValue>>) -> Seq<Option<JsonModel>> {
    items.map_values(
        |o: Option<JsonValue>|
            match o {
                Some(v) => Some(v@),
                None => None,
            },
    )
}

/// The rules of a list from the rules of its items.
pub fn indexed_rules(item_rules: &Vec<Option<JsonValue>>) -> (r: Option<JsonValue>)
    ensures
        match r {
            Some(v) => list_rules_spec(option_models(item_rules@)) == Some(v@),
            None => list_rules_spec(option_models(item_rules@)) is None,
        },
{
    let ghost rs = option_models(item_rules@);
    let mut map: Vec<(String, JsonValue)> = Vec::new();
    let n = item_rules.len();
    for idx in 0..n
        invariant
            n == item_rules@.len(),
            rs == option_models(item_rules@),
            entry_models_of(map@) == indexed_skip_entries(rs, idx as nat),
    {
        match &item_rules[idx] {
            Some(entry) => {
                let key = decimal_string(idx as u64);
                let ghost before = map@;
                map.push((key, entry.deep_clone()));
                proof {
                    assert(map@ == before.push(map@[before.len() as int]));
                    lemma_entry_models_push(before, map@[before.len() as int]);
                }
            },
            None => {},
        }
    }
    proof {
        lemma_entry_models_of(map@);
    }
    if map.len() == 0 {
        None
    } else {
        Some(JsonValue::Object(map))
    }
}

/// `r` is the rules of a list of `n` items, for some rules of the items.
pub open spec fn is_list_rules(n: nat, r: Option<JsonModel>) -> bool {
    exists|rs: Seq<Option<JsonModel>>| rs.len() == n && #[trigger] list_rules_spec(rs) == r
}

impl<T: SkipJsonSchema> SkipJsonSchema for Vec<T> {
    fn skip_json_schema_fields(&self) -> (r: Option<JsonValue>)
        ensures
            is_list_rules(
                self@.len(),
                match r {
                    Some(v) => Some(v@),
                    None => None,
                },
            ),
    {
        let mut rules: Vec<Option<JsonValue>> = Vec::new();
        let n = self.len();
        for idx in 0..n
            invariant
                n == self@.len(),
                rules@.len() == idx,
        {
            rules.push(self[idx].skip_json_schema_fields());
        }
        let ghost rs = option_models(rules@);
        let r = indexed_rules(&rules);
        proof {
            assert(list_rules_spec(rs) == match r {
                Some(v) => Some(v@),
                None => None::<JsonModel>,
            });
        }
        r
    }
}

impl<T: SkipJsonSchema> SkipJsonSchema for Option<T> {
    /// The rules of the value held, as its type gives them; none when empty.
    fn skip_json_schema_fields(&self) -> (r: Option<JsonValue>)
        ensures
            match self {
                Some(v) => call_ensures(T::skip_json_schema_fields, (v,), r),
                None => r is None,
            },
    {
        match self {
            Some(v) => v.skip_json_schema_fields(),
            None => None,
        }
    }
}

/// The exclusion rules of a value (its `SkipJsonSchema` fields): what its
/// type's `skip_json_schema_fields` gives for it.
pub fn build_exclude_dict<T: SkipJsonSchema + ?Sized>(instance: &T) -> (r: Option<JsonValue>)
    ensures
        call_ensures(T::skip_json_schema_fields, (instance,), r),
{
    instance.skip_json_schema_fields()
}

/// Whether the rules mark field `field_name` as excluded: the rules are an
/// object whose entry for the field is `true`.
pub fn is_field_skipped(exclude_map: Option<&JsonValue>, field_name: &str) -> (r: bool)
    ensures
        r == (exclude_map matches Some(m) && m@.get(field_name@) == Some(JsonModel::Bool(true))),
{
    match exclude_map {
        Some(m) => match m.get(field_name) {
            Some(JsonValue::Bool(b)) => *b,
            _ => false,
        },
        None => false,
    }
}

/// The serialized form of a value, with its excluded fields taken out when the
/// schema is enforced and the value has exclusion rules.
pub open spec fn gated_spec(serialized: JsonModel, rules: Option<JsonModel>, enforce_schema: bool) -> JsonModel {
    if enforce_schema {
        match rules {
            Some(ex) => exclude_spec(serialized, ex),
            None => serialized,
        }
    } else {
        serialized
    }
}

/// The serialized form of a value with the given exclusion rules applied when
/// the schema is enforced.
pub fn gated_with_rules(serialized: JsonValue, rules: Option<JsonValue>, enforce_schema: bool) -> (r: JsonValue)
    ensures
        r@ == gated_spec(
            serialized@,
            match rules {
                Some(v) => Some(v@),
                None => None,
            },
            enforce_schema,
        ),
{
    let mut out = serialized;
    if enforce_schema {
        match rules {
            Some(exclude_map) => {
                apply_exclude(&mut out, &exclude_map);
            },
            None => {},
        }
    }
    out
}

/// The model of optional rules.
pub open spec fn rules_model(rules: Option<JsonValue>) -> Option<JsonModel> {
    match rules {
        Some(v) => Some(v@),
        None => None,
    }
}

/// `r` is the serialized form with the rules applied that the instance's own
/// `skip_json_schema_fields` gives.
pub open spec fn gated_by_rules_of<T: SkipJsonSchema + ?Sized>(instance: &T, serialized: JsonModel, r: JsonModel) -> bool {
    exists|rules: Option<JsonValue>|
        #[trigger] call_ensures(T::skip_json_schema_fields, (instance,), rules) && r == gated_spec(
            serialized,
            rules_model(rules),
            true,
        )
}

/// Takes the serialized form of `instance` and, when `enforce_schema` holds,
/// removes the fields that the instance's `SkipJsonSchema` rules exclude.
/// Without enforcement the serialized form comes back unchanged.
pub fn gated_serializer<T: SkipJsonSchema + ?Sized>(instance: &T, serialized: JsonValue, enforce_schema: bool) -> (r: JsonValue)
    ensures
        enforce_schema ==> gated_by_rules_of(instance, serialized@, r@),
        !enforce_schema ==> r@ == serialized@,
{
    let ghost s = serialized@;
    if enforce_schema {
        let rules = build_exclude_dict(instance);
        let ghost rm = rules_model(rules);
        proof {
            assert(call_ensures(T::skip_json_schema_fields, (instance,), rules));
        }
        let r = gated_with_rules(serialized, rules, true);
        proof {
            assert(r@ == gated_spec(s, rm, true));
        }
        r
    } else {
        serialized
    }
}

} // verus!
