//! Choosing the best of a few labelled items with a model: checking the
//! input, the prompt variables that list the items, the reading of the
//! model's answer tokens, and the decision among the labels.
use vstd::prelude::*;

use crate::bindings::{char_to_uppercase, unicode_uppercase};
use crate::keyed::{
    entry_keys, find_key, first_index_where, has_key, keys_distinct, lemma_first_index_where_unique,
    lemma_key_index, lookup,
};
use crate::llms::base::LlmError;
use crate::prompt_manager::prompt_layer::PromptLayerError;
use crate::sorting::{lex_order, sort_strings};
use crate::text::{
    all_whitespace, join, join_strings, lemma_trim_empty, to_chars, trim, trim_str, views_of,
};

verus! {

/// Errors of the selection.
#[derive(Debug)]
pub enum SelectionError {
    InvalidLabel(String),
    InvalidInput(String),
    InvalidLLMResponse,
    LlmError(LlmError),
    PromptLayer(PromptLayerError),
}

impl From<LlmError> for SelectionError {
    fn from(error: LlmError) -> (r: SelectionError) {
        SelectionError::LlmError(error)
    }
}

impl vstd::std_specs::convert::FromSpecImpl<LlmError> for SelectionError {
    open spec fn obeys_from_spec() -> bool {
        true
    }

    open spec fn from_spec(error: LlmError) -> SelectionError {
        SelectionError::LlmError(error)
    }
}

impl From<PromptLayerError> for SelectionError {
    fn from(error: PromptLayerError) -> (r: SelectionError) {
        SelectionError::PromptLayer(error)
    }
}

impl vstd::std_specs::convert::FromSpecImpl<PromptLayerError> for SelectionError {
    open spec fn obeys_from_spec() -> bool {
        true
    }

    open spec fn from_spec(error: PromptLayerError) -> SelectionError {
        SelectionError::PromptLayer(error)
    }
}

/// A character a label may be: an ASCII digit or an ASCII capital letter.
pub open spec fn is_label_char(c: char) -> bool {
    ('0' <= c && c <= '9') || ('A' <= c && c <= 'Z')
}

/// A label is one such character.
pub open spec fn valid_label(l: Seq<char>) -> bool {
    l.len() == 1 && is_label_char(l[0])
}

/// The item whose label is not valid.
pub open spec fn badly_labelled() -> spec_fn((String, String)) -> bool {
    |e: (String, String)| !valid_label(e.0@)
}

/// An `InvalidInput` error carrying `m`.
pub open spec fn is_invalid_input(e: SelectionError, m: Seq<char>) -> bool {
    e matches SelectionError::InvalidInput(t) && t@ == m
}

/// The label alphabet: the ten ASCII digits and the twenty-six ASCII capitals.
pub open spec fn label_alphabet() -> Seq<char> {
    "0123456789ABCDEFGHIJKLMNOPQRSTUVWXYZ"@
}

/// The valid labels are exactly the one-character strings over the label
/// alphabet: every digit `0`..`9` and every capital `A`..`Z` is one, and
/// nothing else (no lowercase letter, no longer or empty string) is.
pub proof fn lemma_valid_labels(l: Seq<char>)
    ensures
        valid_label(l) <==> (l.len() == 1 && label_alphabet().contains(l[0])),
        forall|i: int| 0 <= i < label_alphabet().len() ==> #[trigger] valid_label(seq![label_alphabet()[i]]),
        label_alphabet().len() == 36,
{
    reveal_strlit("0123456789ABCDEFGHIJKLMNOPQRSTUVWXYZ");
    let a = label_alphabet();
    assert forall|i: int| 0 <= i < a.len() implies #[trigger] is_label_char(a[i]) by {}
    assert forall|i: int| 0 <= i < a.len() implies #[trigger] valid_label(seq![a[i]]) by {
        assert(is_label_char(a[i]));
    }
    if l.len() == 1 {
        let c = l[0];
        if is_label_char(c) {
            let k: int = if '0' <= c && c <= '9' { (c as int) - ('0' as int) } else { (c as int) - ('A' as int) + 10 };
            assert(a[k] == c);
        }
    }
}

/// Items whose labels are all one digit or capital letter pass the label
/// check: no item is reported as badly labelled.
pub proof fn lemma_alphabet_labels_pass(items: Seq<(String, String)>)
    requires
        forall|i: int|
            0 <= i < items.len() ==> (#[trigger] items[i]).0@.len() == 1 && label_alphabet().contains(items[i].0@[0]),
    ensures
        first_index_where(items, badly_labelled()) == items.len(),
{
    assert forall|j: int| 0 <= j < items.len() implies !badly_labelled()(#[trigger] items[j]) by {
        lemma_valid_labels(items[j].0@);
    }
    lemma_first_index_where_unique(items, badly_labelled(), items.len() as int);
}

/// Whether a label is valid.
pub fn is_valid_label(label: &str) -> (r: bool)
    ensures
        r == valid_label(label@),
{
    let cs = to_chars(label);
    if cs.len() != 1 {
        return false;
    }
    let c = cs[0];
    ('0' <= c && c <= '9') || ('A' <= c && c <= 'Z')
}

/// Checks the input of a selection: there are items, the purpose is not
/// blank, and every label is one digit or capital letter (the first bad label
/// is reported).
#[verifier::loop_isolation(false)]
pub fn check_selection_input(labeled_items: &Vec<(String, String)>, purpose: &str) -> (r: Result<(), SelectionError>)
    ensures
        labeled_items@.len() == 0 ==> (r matches Err(e) && is_invalid_input(e, "labeled_items is empty"@)),
        labeled_items@.len() > 0 && all_whitespace(purpose@) ==> (r matches Err(e) && is_invalid_input(
            e,
            "purpose is empty"@,
        )),
        labeled_items@.len() > 0 && !all_whitespace(purpose@) ==> ({
            let i = first_index_where(labeled_items@, badly_labelled());
            if i < labeled_items@.len() {
                r matches Err(SelectionError::InvalidLabel(l)) && l@ == labeled_items@[i].0@
            } else {
                r is Ok
            }
        }),
{
    if labeled_items.len() == 0 {
        return Err(SelectionError::InvalidInput(String::from_str("labeled_items is empty")));
    }
    proof {
        lemma_trim_empty(purpose@);
    }
    let t = trim_str(purpose);
    if t.as_str().is_empty() {
        return Err(SelectionError::InvalidInput(String::from_str("purpose is empty")));
    }
    let n = labeled_items.len();
    for i in 0..n
        invariant
            n == labeled_items@.len(),
            forall|j: int| 0 <= j < i ==> !(#[trigger] badly_labelled()(labeled_items@[j])),
    {
        if !is_valid_label(labeled_items[i].0.as_str()) {
            proof {
                lemma_first_index_where_unique(labeled_items@, badly_labelled(), i as int);
            }
            return Err(SelectionError::InvalidLabel(String::from_str(labeled_items[i].0.as_str())));
        }
    }
    proof {
        lemma_first_index_where_unique(labeled_items@, badly_labelled(), n as int);
    }
    Ok(())
}

/// The line of one item in the prompt: `label: item`.
pub open spec fn item_line(label: Seq<char>, item: Seq<char>) -> Seq<char> {
    label + ": "@ + item
}

/// The lines of the items, in the order of `labels`.
pub open spec fn item_lines(labels: Seq<Seq<char>>, items: Seq<(String, String)>) -> Seq<Seq<char>> {
    labels.map_values(|l: Seq<char>| item_line(l, lookup(items, l)->0@))
}

/// The labels, sorted, and the variables of the selection prompts:
/// `purpose`, `item_type`, `labels_str` (the sorted labels joined by ", ")
/// and `labeled_items_list` (one `label: item` line per sorted label).
pub open spec fn selection_variables_spec(
    labels: Seq<Seq<char>>,
    items: Seq<(String, String)>,
    purpose: Seq<char>,
    item_type: Seq<char>,
) -> Seq<(Seq<char>, Seq<char>)> {
    seq![
        ("purpose"@, purpose),
        ("item_type"@, item_type),
        ("labels_str"@, join(labels, ", "@)),
        ("labeled_items_list"@, join(item_lines(labels, items), "\n"@)),
    ]
}

/// The sorted labels of the items and the variables of the selection prompts.
#[verifier::loop_isolation(false)]
pub fn selection_prompt_variables(labeled_items: &Vec<(String, String)>, purpose: &str, item_type: &str) -> (r: (
    Vec<String>,
    Vec<(String, String)>,
))
    requires
        keys_distinct(entry_keys(labeled_items@)),
    ensures
        vstd::relations::sorted_by(views_of(r.0@), lex_order()),
        views_of(r.0@).to_multiset() == entry_keys(labeled_items@).to_multiset(),
        r.1@.map_values(|e: (String, String)| (e.0@, e.1@)) == selection_variables_spec(
            views_of(r.0@),
            labeled_items@,
            purpose@,
            item_type@,
        ),
{
    let mut keys: Vec<String> = Vec::new();
    let n = labeled_items.len();
    for i in 0..n
        invariant
            n == labeled_items@.len(),
            views_of(keys@) == entry_keys(labeled_items@).take(i as int),
    {
        keys.push(String::from_str(labeled_items[i].0.as_str()));
        proof {
            assert(views_of(keys@) =~= entry_keys(labeled_items@).take(i + 1));
        }
    }
    proof {
        assert(entry_keys(labeled_items@).take(n as int) =~= entry_keys(labeled_items@));
    }
    let labels = sort_strings(keys);
    let ghost lv = views_of(labels@);
    let labels_str = join_strings(&labels, ", ");
    let mut lines: Vec<String> = Vec::new();
    let m = labels.len();
    for i in 0..m
        invariant
            m == labels@.len(),
            lv == views_of(labels@),
            views_of(lines@) == item_lines(lv, labeled_items@).take(i as int),
            views_of(labels@).to_multiset() == entry_keys(labeled_items@).to_multiset(),
    {
        proof {
            assert(lv.contains(lv[i as int]));
            vstd::seq_lib::to_multiset_contains(lv, lv[i as int]);
            vstd::seq_lib::to_multiset_contains(entry_keys(labeled_items@), lv[i as int]);
            lemma_key_index(entry_keys(labeled_items@), lv[i as int]);
        }
        let item = match find_key(labeled_items, labels[i].as_str()) {
            Some(k) => String::from_str(labeled_items[k].1.as_str()),
            None => String::new(),
        };
        let mut line = String::from_str(labels[i].as_str());
        line.append(": ");
        line.append(item.as_str());
        lines.push(line);
        proof {
            assert(views_of(lines@) =~= item_lines(lv, labeled_items@).take(i + 1));
        }
    }
    proof {
        assert(item_lines(lv, labeled_items@).take(m as int) =~= item_lines(lv, labeled_items@));
    }
    let list = join_strings(&lines, "\n");
    let mut vars: Vec<(String, String)> = Vec::new();
    vars.push((String::from_str("purpose"), String::from_str(purpose)));
    vars.push((String::from_str("item_type"), String::from_str(item_type)));
    vars.push((String::from_str("labels_str"), labels_str));
    vars.push((String::from_str("labeled_items_list"), list));
    proof {
        assert(vars@.map_values(|e: (String, String)| (e.0@, e.1@)) =~= selection_variables_spec(
            lv,
            labeled_items@,
            purpose@,
            item_type@,
        ));
    }
    (labels, vars)
}

/// The characters of a text, each turned to upper case.
pub open spec fn uppercase_text(s: Seq<char>) -> Seq<char>
    decreases s.len(),
{
    if s.len() == 0 {
        Seq::empty()
    } else {
        uppercase_text(s.drop_last()) + unicode_uppercase(s.last())
    }
}

/// A model's answer token as a label: trimmed, in upper case.
pub fn normalize_token(token: &str) -> (r: String)
    ensures
        r@ == uppercase_text(trim(token@)),
{
    let t = trim_str(token);
    let cs = to_chars(t.as_str());
    let mut out = String::new();
    let n = cs.len();
    for i in 0..n
        invariant
            n == cs@.len(),
            cs@ == t@,
            out@ == uppercase_text(cs@.take(i as int)),
    {
        let up = char_to_uppercase(cs[i]);
        let m = up.len();
        let ghost start = out@;
        for j in 0..m
            invariant
                m == up@.len(),
                out@ == start + up@.take(j as int),
        {
            crate::bindings::push_char(&mut out, up[j]);
            proof {
                assert(up@.take(j + 1) =~= up@.take(j as int).push(up@[j as int]));
            }
        }
        proof {
            assert(up@.take(m as int) =~= up@);
            assert(cs@.take(i + 1).drop_last() =~= cs@.take(i as int));
        }
    }
    proof {
        assert(cs@.take(n as int) =~= cs@);
    }
    out
}

/// The first of the labels, in order, whose probability is over the
/// threshold (`over[i]` for `labels[i]`); none when no label is.
pub fn first_label_over_threshold(labels: &Vec<String>, over: &Vec<bool>) -> (r: Option<String>)
    requires
        labels@.len() == over@.len(),
    ensures
        ({
            let i = first_index_where(over@, |b: bool| b);
            if i < over@.len() {
                r matches Some(l) && l@ == labels@[i]@
            } else {
                r is None
            }
        }),
{
    let n = labels.len();
    for i in 0..n
        invariant
            n == labels@.len(),
            n == over@.len(),
            forall|j: int| 0 <= j < i ==> !(#[trigger] over@[j]),
    {
        if over[i] {
            proof {
                lemma_first_index_where_unique(over@, |b: bool| b, i as int);
            }
            return Some(String::from_str(labels[i].as_str()));
        }
    }
    proof {
        lemma_first_index_where_unique(over@, |b: bool| b, n as int);
    }
    None
}

/// The decision from the most likely answer token: none when there is no
/// token or the token is a label; `X` and `Y` choose no item; a label of an
/// item chooses it.
pub open spec fn top_token_decision(top: Option<Seq<char>>, items: Seq<(String, String)>) -> Option<Option<Seq<char>>> {
    match top {
        None => None,
        Some(t) => if t == "X"@ || t == "Y"@ {
            Some(None)
        } else if has_key(entry_keys(items), t) {
            Some(Some(t))
        } else {
            None
        },
    }
}

/// Decides from the most likely answer token; a token that is no label is an
/// invalid answer.
pub fn decide_top_token(top: Option<&str>, labeled_items: &Vec<(String, String)>) -> (r: Result<Option<String>, SelectionError>)
    ensures
        match top_token_decision(
            match top {
                Some(t) => Some(t@),
                None => None,
            },
            labeled_items@,
        ) {
            Some(Some(l)) => r matches Ok(Some(s)) && s@ == l,
            Some(None) => r matches Ok(None),
            None => r matches Err(SelectionError::InvalidLLMResponse),
        },
{
    match top {
        None => Err(SelectionError::InvalidLLMResponse),
        Some(t) => {
            proof {
                reveal_strlit("X");
                reveal_strlit("Y");
            }
            if crate::text::str_eq(t, "X") || crate::text::str_eq(t, "Y") {
                return Ok(None);
            }
            proof {
                lemma_key_index(entry_keys(labeled_items@), t@);
            }
            match find_key(labeled_items, t) {
                Some(_) => Ok(Some(String::from_str(t))),
                None => Err(SelectionError::InvalidLLMResponse),
            }
        },
    }
}

} // verus!
