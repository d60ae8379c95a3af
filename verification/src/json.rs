//! A JSON document as plain data: the values that prompt variables, tool
//! payloads, model responses and exclusion rules are made of.
use vstd::prelude::*;

use crate::keyed::{
    entry_keys, find_key, has_key, key_index, keys_distinct, lemma_key_index,
    lemma_key_index_unique,
};

verus! {

/// A JSON number as the parser classifies it: a non-negative integer, a
/// negative integer, or a number with a fraction or exponent, kept by its
/// decimal text.
#[derive(Debug)]
pub enum JsonNumber {
    PosInt(u64),
    NegInt(i64),
    Float(String),
}

/// The mathematical value that a `JsonNumber` stands for.
pub enum NumberModel {
    PosInt(u64),
    NegInt(i64),
    Float(Seq<char>),
}

impl View for JsonNumber {
    type V = NumberModel;

    open spec fn view(&self) -> NumberModel {
        match self {
            JsonNumber::PosInt(n) => NumberModel::PosInt(*n),
            JsonNumber::NegInt(n) => NumberModel::NegInt(*n),
            JsonNumber::Float(t) => NumberModel::Float(t@),
        }
    }
}

/// A JSON value. An object is a list of entries; a well-formed object has no
/// key twice, and lookups find the first entry with a key.
#[derive(Debug)]
pub enum JsonValue {
    Null,
    Bool(bool),
    Number(JsonNumber),
    String(String),
    Array(Vec<JsonValue>),
    Object(Vec<(String, JsonValue)>),
}

/// The mathematical value that a `JsonValue` stands for.
pub enum JsonModel {
    Null,
    Bool(bool),
    Number(NumberModel),
    Str(Seq<char>),
    Array(Seq<JsonModel>),
    Object(Seq<(Seq<char>, JsonModel)>),
}

pub open spec fn model_of(v: JsonValue) -> JsonModel
    decreases v, 2nat,
{
    match v {
        JsonValue::Null => JsonModel::Null,
        JsonValue::Bool(b) => JsonModel::Bool(b),
        JsonValue::Number(n) => JsonModel::Number(n@),
        JsonValue::String(s) => JsonModel::Str(s@),
        JsonValue::Array(items) => JsonModel::Array(models_of(items@)),
        JsonValue::Object(entries) => JsonModel::Object(entry_models_of(entries@)),
    }
}

pub open spec fn models_of(items: Seq<JsonValue>) -> Seq<JsonModel>
    decreases items, 1nat,
{
    if items.len() == 0 {
        Seq::empty()
    } else {
        models_of(items.drop_last()).push(model_of(items.last()))
    }
}

pub open spec fn entry_models_of(entries: Seq<(String, JsonValue)>) -> Seq<(Seq<char>, JsonModel)>
    decreases entries, 1nat,
{
    if entries.len() == 0 {
        Seq::empty()
    } else {
        entry_models_of(entries.drop_last()).push(
            (entries.last().0@, model_of(entries.last().1)),
        )
    }
}

impl View for JsonValue {
    type V = JsonModel;

    open spec fn view(&self) -> JsonModel {
        model_of(*self)
    }
}

/// The keys of an object's entries.
pub open spec fn model_keys(entries: Seq<(Seq<char>, JsonModel)>) -> Seq<Seq<char>> {
    entries.map_values(|e: (Seq<char>, JsonModel)| e.0)
}

/// The value of the first entry with key `k` in an object's entries.
pub open spec fn model_lookup(entries: Seq<(Seq<char>, JsonModel)>, k: Seq<char>) -> Option<JsonModel> {
    let i = key_index(model_keys(entries), k);
    if i < entries.len() {
        Some(entries[i].1)
    } else {
        None
    }
}

/// The entries without the first entry with key `k` (unchanged when there is none).
pub open spec fn model_remove(entries: Seq<(Seq<char>, JsonModel)>, k: Seq<char>) -> Seq<(Seq<char>, JsonModel)> {
    let i = key_index(model_keys(entries), k);
    if i < entries.len() {
        entries.remove(i)
    } else {
        entries
    }
}

/// The entries with the value of the first entry with key `k` replaced by `v`,
/// or with `(k, v)` appended when there is no such entry.
pub open spec fn model_insert(entries: Seq<(Seq<char>, JsonModel)>, k: Seq<char>, v: JsonModel) -> Seq<(Seq<char>, JsonModel)> {
    let i = key_index(model_keys(entries), k);
    if i < entries.len() {
        entries.update(i, (k, v))
    } else {
        entries.push((k, v))
    }
}

/// The keys after setting the first entry with key `k`: unchanged when there
/// is one, `k` appended when there is none.
proof fn lemma_insert_keys(entries: Seq<(Seq<char>, JsonModel)>, k: Seq<char>, v: JsonModel)
    ensures
        model_keys(model_insert(entries, k, v)) == (if has_key(model_keys(entries), k) {
            model_keys(entries)
        } else {
            model_keys(entries).push(k)
        }),
{
    let keys = model_keys(entries);
    lemma_key_index(keys, k);
    let i = key_index(keys, k);
    if i < entries.len() {
        assert(model_keys(entries.update(i, (k, v))) =~= keys);
    } else {
        assert(model_keys(entries.push((k, v))) =~= keys.push(k));
    }
}

/// Reading a key after setting it gives back the value set.
pub proof fn lemma_lookup_insert_same(entries: Seq<(Seq<char>, JsonModel)>, k: Seq<char>, v: JsonModel)
    ensures
        model_lookup(model_insert(entries, k, v), k) == Some(v),
{
    let keys = model_keys(entries);
    lemma_key_index(keys, k);
    lemma_insert_keys(entries, k, v);
    let i = key_index(keys, k);
    let after = model_insert(entries, k, v);
    if i >= entries.len() {
        let nk = keys.push(k);
        assert(forall|j: int| 0 <= j < keys.len() ==> nk[j] == keys[j]);
        lemma_key_index_unique(nk, k, keys.len() as int);
    }
}

/// Setting a key leaves what the other keys read unchanged.
pub proof fn lemma_lookup_insert_other(entries: Seq<(Seq<char>, JsonModel)>, k: Seq<char>, v: JsonModel, other: Seq<char>)
    requires
        other != k,
    ensures
        model_lookup(model_insert(entries, k, v), other) == model_lookup(entries, other),
{
    let keys = model_keys(entries);
    lemma_key_index(keys, k);
    lemma_key_index(keys, other);
    lemma_insert_keys(entries, k, v);
    let i = key_index(keys, k);
    if i >= entries.len() {
        let nk = keys.push(k);
        let j = key_index(keys, other);
        assert(forall|t: int| 0 <= t < keys.len() ==> nk[t] == keys[t]);
        if j < keys.len() {
            lemma_key_index_unique(nk, other, j);
        } else {
            lemma_key_index_unique(nk, other, nk.len() as int);
        }
    }
}

/// Without repeated keys, a key reads nothing once it is removed.
pub proof fn lemma_lookup_remove_same(entries: Seq<(Seq<char>, JsonModel)>, k: Seq<char>)
    requires
        keys_distinct(model_keys(entries)),
    ensures
        model_lookup(model_remove(entries, k), k) is None,
{
    let keys = model_keys(entries);
    lemma_key_index(keys, k);
    let i = key_index(keys, k);
    if i < entries.len() {
        let after = entries.remove(i);
        let nk = model_keys(after);
        assert(nk =~= keys.remove(i));
        lemma_key_index(nk, k);
        if has_key(nk, k) {
            let j = choose|j: int| 0 <= j < nk.len() && nk[j] == k;
            if j < i {
                assert(keys[j] == k);
            } else {
                assert(keys[j + 1] == k);
            }
        }
    }
}

/// Removing a key leaves what the other keys read unchanged.
pub proof fn lemma_lookup_remove_other(entries: Seq<(Seq<char>, JsonModel)>, k: Seq<char>, other: Seq<char>)
    requires
        other != k,
    ensures
        model_lookup(model_remove(entries, k), other) == model_lookup(entries, other),
{
    let keys = model_keys(entries);
    lemma_key_index(keys, k);
    lemma_key_index(keys, other);
    let i = key_index(keys, k);
    if i < entries.len() {
        let after = entries.remove(i);
        let nk = model_keys(after);
        assert(nk =~= keys.remove(i));
        let j = key_index(keys, other);
        if j < keys.len() {
            assert(j != i);
            if j < i {
                lemma_key_index_unique(nk, other, j);
            } else {
                assert forall|t: int| 0 <= t < j - 1 implies nk[t] != other by {
                    if t >= i {
                        assert(nk[t] == keys[t + 1]);
                    }
                }
                lemma_key_index_unique(nk, other, j - 1);
            }
        } else {
            assert forall|t: int| 0 <= t < nk.len() implies nk[t] != other by {
                if t >= i {
                    assert(nk[t] == keys[t + 1]);
                }
            }
            lemma_key_index_unique(nk, other, nk.len() as int);
        }
    }
}

/// Setting a key of entries with no repeated key keeps them so.
pub proof fn lemma_insert_keeps_distinct(entries: Seq<(Seq<char>, JsonModel)>, k: Seq<char>, v: JsonModel)
    requires
        keys_distinct(model_keys(entries)),
    ensures
        keys_distinct(model_keys(model_insert(entries, k, v))),
{
    let keys = model_keys(entries);
    lemma_key_index(keys, k);
    lemma_insert_keys(entries, k, v);
    if !has_key(keys, k) {
        let nk = keys.push(k);
        assert forall|a: int, b: int| 0 <= a < nk.len() && 0 <= b < nk.len() && a != b implies nk[a] != nk[b] by {
            if a == keys.len() && b < keys.len() {
                assert(keys[b] != k);
            } else if b == keys.len() && a < keys.len() {
                assert(keys[a] != k);
            }
        }
    }
}

/// Removing a key of entries with no repeated key keeps them so.
pub proof fn lemma_remove_keeps_distinct(entries: Seq<(Seq<char>, JsonModel)>, k: Seq<char>)
    requires
        keys_distinct(model_keys(entries)),
    ensures
        keys_distinct(model_keys(model_remove(entries, k))),
{
    let keys = model_keys(entries);
    lemma_key_index(keys, k);
    let i = key_index(keys, k);
    if i < entries.len() {
        let nk = model_keys(entries.remove(i));
        assert(nk =~= keys.remove(i));
        assert forall|a: int, b: int| 0 <= a < nk.len() && 0 <= b < nk.len() && a != b implies nk[a] != nk[b] by {
            let a2 = if a < i { a } else { a + 1 };
            let b2 = if b < i { b } else { b + 1 };
            assert(nk[a] == keys[a2]);
            assert(nk[b] == keys[b2]);
        }
    }
}

impl JsonModel {
    /// The field `k` of an object; nothing for other values.
    pub open spec fn get(self, k: Seq<char>) -> Option<JsonModel> {
        match self {
            JsonModel::Object(entries) => model_lookup(entries, k),
            _ => None,
        }
    }

    /// An integer in the JSON sense: a number with no fractional representation.
    pub open spec fn is_integer(self) -> bool {
        match self {
            JsonModel::Number(NumberModel::PosInt(_)) => true,
            JsonModel::Number(NumberModel::NegInt(_)) => true,
            _ => false,
        }
    }
}

pub proof fn lemma_models_of(items: Seq<JsonValue>)
    ensures
        models_of(items).len() == items.len(),
        forall|i: int| 0 <= i < items.len() ==> #[trigger] models_of(items)[i] == model_of(items[i]),
    decreases items.len(),
{
    if items.len() > 0 {
        lemma_models_of(items.drop_last());
    }
}

pub proof fn lemma_entry_models_of(entries: Seq<(String, JsonValue)>)
    ensures
        entry_models_of(entries).len() == entries.len(),
        forall|i: int|
            0 <= i < entries.len() ==> #[trigger] entry_models_of(entries)[i] == (
                entries[i].0@,
                model_of(entries[i].1),
            ),
        model_keys(entry_models_of(entries)) == entry_keys(entries),
    decreases entries.len(),
{
    if entries.len() > 0 {
        lemma_entry_models_of(entries.drop_last());
    }
    assert(model_keys(entry_models_of(entries)) =~= entry_keys(entries));
}

/// Two lists of values with the same models element by element have the same model.
pub proof fn lemma_models_of_ext(a: Seq<JsonValue>, b: Seq<JsonValue>)
    requires
        a.len() == b.len(),
        forall|i: int| 0 <= i < a.len() ==> model_of(a[i]) == model_of(b[i]),
    ensures
        models_of(a) == models_of(b),
{
    lemma_models_of(a);
    lemma_models_of(b);
    assert(models_of(a) =~= models_of(b));
}

/// Two lists of entries with the same keys and models element by element have the same model.
pub proof fn lemma_entry_models_of_ext(a: Seq<(String, JsonValue)>, b: Seq<(String, JsonValue)>)
    requires
        a.len() == b.len(),
        forall|i: int| 0 <= i < a.len() ==> a[i].0@ == b[i].0@ && model_of(a[i].1) == model_of(b[i].1),
    ensures
        entry_models_of(a) == entry_models_of(b),
{
    lemma_entry_models_of(a);
    lemma_entry_models_of(b);
    assert(entry_models_of(a) =~= entry_models_of(b));
}

pub proof fn lemma_entry_models_remove(v: Seq<(String, JsonValue)>, k: int)
    requires
        0 <= k < v.len(),
    ensures
        entry_models_of(v.remove(k)) == entry_models_of(v).remove(k),
{
    lemma_entry_models_of(v);
    lemma_entry_models_of(v.remove(k));
    assert(entry_models_of(v.remove(k)) =~= entry_models_of(v).remove(k));
}

pub proof fn lemma_entry_models_insert(v: Seq<(String, JsonValue)>, k: int, e: (String, JsonValue))
    requires
        0 <= k <= v.len(),
    ensures
        entry_models_of(v.insert(k, e)) == entry_models_of(v).insert(k, (e.0@, model_of(e.1))),
{
    lemma_entry_models_of(v);
    lemma_entry_models_of(v.insert(k, e));
    assert(entry_models_of(v.insert(k, e)) =~= entry_models_of(v).insert(k, (e.0@, model_of(e.1))));
}

pub proof fn lemma_entry_models_push(v: Seq<(String, JsonValue)>, e: (String, JsonValue))
    ensures
        entry_models_of(v.push(e)) == entry_models_of(v).push((e.0@, model_of(e.1))),
{
    assert(v.push(e).drop_last() =~= v);
}

pub proof fn lemma_models_remove(v: Seq<JsonValue>, k: int)
    requires
        0 <= k < v.len(),
    ensures
        models_of(v.remove(k)) == models_of(v).remove(k),
{
    lemma_models_of(v);
    lemma_models_of(v.remove(k));
    assert(models_of(v.remove(k)) =~= models_of(v).remove(k));
}

pub proof fn lemma_models_insert(v: Seq<JsonValue>, k: int, e: JsonValue)
    requires
        0 <= k <= v.len(),
    ensures
        models_of(v.insert(k, e)) == models_of(v).insert(k, model_of(e)),
{
    lemma_models_of(v);
    lemma_models_of(v.insert(k, e));
    assert(models_of(v.insert(k, e)) =~= models_of(v).insert(k, model_of(e)));
}

pub proof fn lemma_models_push(v: Seq<JsonValue>, e: JsonValue)
    ensures
        models_of(v.push(e)) == models_of(v).push(model_of(e)),
{
    assert(v.push(e).drop_last() =~= v);
}

/// A JSON string holding `s`.
pub fn text_value(s: &str) -> (r: JsonValue)
    ensures
        r@ == JsonModel::Str(s@),
{
    JsonValue::String(String::from_str(s))
}

/// An object with one entry.
pub fn obj1(k1: &str, v1: JsonValue) -> (r: JsonValue)
    ensures
        r@ == JsonModel::Object(seq![(k1@, v1@)]),
{
    let mut m: Vec<(String, JsonValue)> = Vec::new();
    m.push((String::from_str(k1), v1));
    proof {
        lemma_entry_models_push(Seq::empty(), m@[0]);
        assert(m@ == Seq::<(String, JsonValue)>::empty().push(m@[0]));
    }
    JsonValue::Object(m)
}

/// An object with two entries.
pub fn obj2(k1: &str, v1: JsonValue, k2: &str, v2: JsonValue) -> (r: JsonValue)
    ensures
        r@ == JsonModel::Object(seq![(k1@, v1@), (k2@, v2@)]),
{
    let mut m: Vec<(String, JsonValue)> = Vec::new();
    m.push((String::from_str(k1), v1));
    let ghost m1 = m@;
    m.push((String::from_str(k2), v2));
    proof {
        lemma_entry_models_push(Seq::empty(), m1[0]);
        assert(m1 == Seq::<(String, JsonValue)>::empty().push(m1[0]));
        lemma_entry_models_push(m1, m@[1]);
        assert(m@ == m1.push(m@[1]));
        assert(entry_models_of(m@) =~= seq![(k1@, m@[0].1@), (k2@, m@[1].1@)]);
    }
    JsonValue::Object(m)
}

/// An object with three entries.
pub fn obj3(k1: &str, v1: JsonValue, k2: &str, v2: JsonValue, k3: &str, v3: JsonValue) -> (r: JsonValue)
    ensures
        r@ == JsonModel::Object(seq![(k1@, v1@), (k2@, v2@), (k3@, v3@)]),
{
    let mut m: Vec<(String, JsonValue)> = Vec::new();
    m.push((String::from_str(k1), v1));
    let ghost m1 = m@;
    m.push((String::from_str(k2), v2));
    let ghost m2 = m@;
    m.push((String::from_str(k3), v3));
    proof {
        lemma_entry_models_push(Seq::empty(), m1[0]);
        assert(m1 == Seq::<(String, JsonValue)>::empty().push(m1[0]));
        lemma_entry_models_push(m1, m2[1]);
        assert(m2 == m1.push(m2[1]));
        lemma_entry_models_push(m2, m@[2]);
        assert(m@ == m2.push(m@[2]));
        assert(entry_models_of(m@) =~= seq![(k1@, m@[0].1@), (k2@, m@[1].1@), (k3@, m@[2].1@)]);
    }
    JsonValue::Object(m)
}

/// Appends the entry `(k, v)` to an object's entries.
pub fn push_entry(entries: &mut Vec<(String, JsonValue)>, k: &str, v: JsonValue)
    ensures
        entry_models_of(final(entries)@) == entry_models_of(old(entries)@).push((k@, v@)),
{
    let ghost before = entries@;
    entries.push((String::from_str(k), v));
    proof {
        lemma_entry_models_push(before, entries@[before.len() as int]);
        assert(entries@ == before.push(entries@[before.len() as int]));
    }
}

/// Copies of the values, down to their last element.
pub fn clone_values(items: &Vec<JsonValue>) -> (r: Vec<JsonValue>)
    ensures
        models_of(r@) == models_of(items@),
{
    let mut out: Vec<JsonValue> = Vec::new();
    let n = items.len();
    for i in 0..n
        invariant
            n == items@.len(),
            out@.len() == i,
            forall|j: int| 0 <= j < i ==> model_of(#[trigger] out@[j]) == model_of(items@[j]),
    {
        out.push(items[i].deep_clone());
    }
    proof {
        lemma_models_of_ext(out@, items@);
    }
    out
}

/// Copies of an object's entries.
pub fn clone_entries(entries: &Vec<(String, JsonValue)>) -> (r: Vec<(String, JsonValue)>)
    ensures
        entry_models_of(r@) == entry_models_of(entries@),
{
    let mut out: Vec<(String, JsonValue)> = Vec::new();
    let n = entries.len();
    for i in 0..n
        invariant
            n == entries@.len(),
            out@.len() == i,
            forall|j: int|
                0 <= j < i ==> (#[trigger] out@[j]).0@ == entries@[j].0@ && out@[j].1@ == entries@[j].1@,
    {
        out.push((String::from_str(entries[i].0.as_str()), entries[i].1.deep_clone()));
    }
    proof {
        lemma_entry_models_of_ext(out@, entries@);
    }
    out
}

/// An array with one element.
pub fn arr1(v1: JsonValue) -> (r: JsonValue)
    ensures
        r@ == JsonModel::Array(seq![v1@]),
{
    let mut a: Vec<JsonValue> = Vec::new();
    a.push(v1);
    proof {
        lemma_models_push(Seq::empty(), a@[0]);
        assert(a@ == Seq::<JsonValue>::empty().push(a@[0]));
    }
    JsonValue::Array(a)
}

impl JsonValue {
    /// A copy of the value, down to its last element.
    #[verifier::loop_isolation(false)]
    pub fn deep_clone(&self) -> (r: JsonValue)
        ensures
            r@ == self@,
        decreases self,
    {
        match self {
            JsonValue::Null => JsonValue::Null,
            JsonValue::Bool(b) => JsonValue::Bool(*b),
            JsonValue::Number(JsonNumber::PosInt(n)) => JsonValue::Number(JsonNumber::PosInt(*n)),
            JsonValue::Number(JsonNumber::NegInt(n)) => JsonValue::Number(JsonNumber::NegInt(*n)),
            JsonValue::Number(JsonNumber::Float(t)) => JsonValue::Number(JsonNumber::Float(t.clone())),
            JsonValue::String(s) => JsonValue::String(s.clone()),
            JsonValue::Array(items) => {
                let mut out: Vec<JsonValue> = Vec::new();
                let n = items.len();
                for i in 0..n
                    invariant
                        n == items@.len(),
                        out@.len() == i,
                        forall|j: int| 0 <= j < i ==> model_of(#[trigger] out@[j]) == model_of(items@[j]),
                {
                    proof {
                        assert(decreases_to!(items@ => items@[i as int]));
                        assert(decreases_to!(*items => items@));
                    }
                    let c = items[i].deep_clone();
                    out.push(c);
                }
                proof {
                    lemma_models_of_ext(out@, items@);
                }
                JsonValue::Array(out)
            },
            JsonValue::Object(entries) => {
                let mut out: Vec<(String, JsonValue)> = Vec::new();
                let n = entries.len();
                for i in 0..n
                    invariant
                        n == entries@.len(),
                        out@.len() == i,
                        forall|j: int|
                            0 <= j < i ==> (#[trigger] out@[j]).0@ == entries@[j].0@ && model_of(out@[j].1)
                                == model_of(entries@[j].1),
                {
                    proof {
                        assert(decreases_to!(entries@[i as int] => entries@[i as int].1));
                        assert(decreases_to!(entries@ => entries@[i as int]));
                        assert(decreases_to!(*entries => entries@));
                    }
                    let k = entries[i].0.clone();
                    let v = entries[i].1.deep_clone();
                    out.push((k, v));
                }
                proof {
                    lemma_entry_models_of_ext(out@, entries@);
                }
                JsonValue::Object(out)
            },
        }
    }

    /// The field `key` of an object; nothing for other values.
    pub fn get(&self, key: &str) -> (r: Option<&JsonValue>)
        ensures
            (match r {
                Some(v) => Some(v@),
                None => None::<JsonModel>,
            }) == self@.get(key@),
    {
        match self {
            JsonValue::Object(entries) => {
                proof {
                    lemma_entry_models_of(entries@);
                }
                match find_key(entries, key) {
                    Some(i) => Some(&entries[i].1),
                    None => None,
                }
            },
            _ => None,
        }
    }

    pub fn is_string(&self) -> (r: bool)
        ensures
            r == self@ is Str,
    {
        match self {
            JsonValue::String(_) => true,
            _ => false,
        }
    }

    pub fn is_boolean(&self) -> (r: bool)
        ensures
            r == self@ is Bool,
    {
        match self {
            JsonValue::Bool(_) => true,
            _ => false,
        }
    }

    /// Whether the value is an integer: a number that fits `i64` or `u64`.
    pub fn is_integer(&self) -> (r: bool)
        ensures
            r == self@.is_integer(),
    {
        match self {
            JsonValue::Number(JsonNumber::PosInt(_)) => true,
            JsonValue::Number(JsonNumber::NegInt(_)) => true,
            _ => false,
        }
    }

    /// The value as a `u64`, when it is a non-negative integer.
    pub fn as_u64(&self) -> (r: Option<u64>)
        ensures
            r == (match self@ {
                JsonModel::Number(NumberModel::PosInt(n)) => Some(n),
                _ => None,
            }),
    {
        match self {
            JsonValue::Number(JsonNumber::PosInt(n)) => Some(*n),
            _ => None,
        }
    }

    /// The value as text, when it is a string.
    pub fn as_str(&self) -> (r: Option<&str>)
        ensures
            (match r {
                Some(s) => Some(s@),
                None => None::<Seq<char>>,
            }) == (match self@ {
                JsonModel::Str(s) => Some(s),
                _ => None,
            }),
    {
        match self {
            JsonValue::String(s) => Some(s.as_str()),
            _ => None,
        }
    }
}

} // verus!
