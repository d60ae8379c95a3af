//! Templates served by PromptLayer: picking the template out of a served
//! record, checking the variables a caller gives, and rendering as an
//! f-string or a Jinja template.
use vstd::prelude::*;

use crate::bindings::{
    debug_strings, debug_text_of_strings, regex_is_match, regex_match_result, string_pairs,
    tera_render_named, tera_render_named_result,
};
use crate::json::JsonValue;
use crate::template_scan::{renders_deterministically, tera_may_not_return};
use crate::keyed::{
    entry_keys, find_key, first_index_where, keep_where, keys_distinct,
    lemma_first_index_where_unique, lemma_keep_where_step, lookup,
};
use crate::prompt_manager::templates::PromptTemplate;
use crate::text::{replace_all, replace_str, str_eq, views_of};

verus! {

/// The declaration of `reqwest::Error`, the failure of an HTTP exchange.
#[verifier::external_type_specification]
#[verifier::external_body]
pub struct ExReqwestError(reqwest::Error);

/// A template as PromptLayer serves it.
#[derive(Debug)]
pub struct PromptLayerTemplate {
    pub prompt_name: String,
    pub prompt_template: PromptTemplatePayload,
}

#[derive(Debug)]
pub struct PromptTemplatePayload {
    pub messages: Vec<PromptMessage>,
}

#[derive(Debug)]
pub struct PromptMessage {
    pub input_variables: Vec<String>,
    pub template_format: String,
    pub content: Vec<PromptContent>,
}

#[derive(Debug)]
pub struct PromptContent {
    pub id: Option<String>,
    pub annotations: Option<JsonValue>,
    pub text: Option<String>,
}

/// A template ready to render: its name, the variables it needs, its format
/// (`jinja2` or `f-string`) and its text.
#[derive(Debug)]
pub struct PromptTemplateData {
    pub name: String,
    pub input_variables: Vec<String>,
    pub template_format: String,
    pub template_text: String,
}

/// Errors surfaced by the prompt manager.
#[derive(Debug)]
pub enum PromptLayerError {
    MissingApiKey,
    Http(reqwest::Error),
    Parse(String),
    NotFound(String),
}

/// `e` is a parse error with this message.
pub open spec fn is_parse(e: PromptLayerError, m: Seq<char>) -> bool {
    e matches PromptLayerError::Parse(t) && t@ == m
}

fn copy_string(s: &String) -> (r: String)
    ensures
        r@ == s@,
{
    String::from_str(s.as_str())
}

fn copy_strings(v: &Vec<String>) -> (r: Vec<String>)
    ensures
        views_of(r@) == views_of(v@),
{
    let mut out: Vec<String> = Vec::new();
    let n = v.len();
    for i in 0..n
        invariant
            n == v@.len(),
            out@.len() == i,
            forall|j: int| 0 <= j < i ==> (#[trigger] out@[j])@ == v@[j]@,
    {
        out.push(copy_string(&v[i]));
    }
    assert(views_of(out@) =~= views_of(v@));
    out
}

/// Picks the template out of a served record: the text of the first content
/// of the first message, with that message's variables and format.
pub fn extract_prompt(template: &PromptLayerTemplate) -> (r: Result<PromptTemplateData, PromptLayerError>)
    ensures
        ({
            let msgs = template.prompt_template.messages@;
            if msgs.len() == 0 {
                r matches Err(e) && is_parse(e, "messages missing"@)
            } else if msgs[0].content@.len() == 0 {
                r matches Err(e) && is_parse(e, "content missing"@)
            } else {
                match msgs[0].content@[0].text {
                    None => r matches Err(e) && is_parse(e, "text missing"@),
                    Some(text) => r matches Ok(d) && d.name@ == template.prompt_name@ && views_of(
                        d.input_variables@,
                    ) == views_of(msgs[0].input_variables@) && d.template_format@ == msgs[0].template_format@
                        && d.template_text@ == text@,
                }
            }
        }),
{
    if template.prompt_template.messages.len() == 0 {
        return Err(PromptLayerError::Parse(String::from_str("messages missing")));
    }
    let message = &template.prompt_template.messages[0];
    if message.content.len() == 0 {
        return Err(PromptLayerError::Parse(String::from_str("content missing")));
    }
    let content = &message.content[0];
    let text = match &content.text {
        Some(t) => copy_string(t),
        None => {
            return Err(PromptLayerError::Parse(String::from_str("text missing")));
        },
    };
    Ok(PromptTemplateData {
        name: copy_string(&template.prompt_name),
        input_variables: copy_strings(&message.input_variables),
        template_format: copy_string(&message.template_format),
        template_text: text,
    })
}

/// The value given for `k`, as characters.
pub open spec fn string_value(vars: Seq<(String, String)>, k: Seq<char>) -> Option<Seq<char>> {
    match lookup(vars, k) {
        Some(v) => Some(v@),
        None => None,
    }
}

pub open spec fn not_given(vars: Seq<(String, String)>) -> spec_fn(Seq<char>) -> bool {
    |k: Seq<char>| string_value(vars, k) is None
}

/// The variables a template needs and the caller did not give, in order.
pub open spec fn missing_inputs(prompt: PromptTemplateData, vars: Seq<(String, String)>) -> Seq<Seq<char>> {
    keep_where(views_of(prompt.input_variables@), not_given(vars))
}

/// Checks that every variable the template needs is given.
pub fn validate_variables(prompt: &PromptTemplateData, variables: &Vec<(String, String)>) -> (r: Result<
    (),
    PromptLayerError,
>)
    ensures
        ({
            let missing = missing_inputs(*prompt, variables@);
            if missing.len() == 0 {
                r is Ok
            } else {
                r matches Err(e) && is_parse(
                    e,
                    "Missing variables for prompt '"@ + prompt.name@ + "': "@ + debug_text_of_strings(missing),
                )
            }
        }),
{
    let ghost ins = views_of(prompt.input_variables@);
    let ghost pred = not_given(variables@);
    let mut missing: Vec<String> = Vec::new();
    let n = prompt.input_variables.len();
    for i in 0..n
        invariant
            n == prompt.input_variables@.len(),
            ins == views_of(prompt.input_variables@),
            pred == not_given(variables@),
            views_of(missing@) == keep_where(ins.take(i as int), pred),
    {
        proof {
            lemma_keep_where_step(ins, pred, i as int);
        }
        let key = &prompt.input_variables[i];
        if find_key(variables, key.as_str()).is_none() {
            missing.push(copy_string(key));
            assert(views_of(missing@) =~= keep_where(ins.take(i as int), pred).push(ins[i as int]));
        }
    }
    assert(ins.take(n as int) =~= ins);
    if missing.len() > 0 {
        let mut m = String::from_str("Missing variables for prompt '");
        m.append(prompt.name.as_str());
        m.append("': ");
        let listed = debug_strings(&missing);
        assert(missing@.map_values(|s: String| s@) == views_of(missing@));
        m.append(listed.as_str());
        return Err(PromptLayerError::Parse(m));
    }
    Ok(())
}

/// The placeholder of a variable in an f-string: its name in braces.
pub open spec fn placeholder(k: Seq<char>) -> Seq<char> {
    "{"@ + k + "}"@
}

/// The text with the placeholders of the variables, one variable after the
/// other, replaced by their values.
pub open spec fn substitute_all(text: Seq<char>, ins: Seq<Seq<char>>, vars: Seq<(String, String)>) -> Seq<char>
    decreases ins.len(),
{
    if ins.len() == 0 {
        text
    } else {
        let k = ins.last();
        replace_all(substitute_all(text, ins.drop_last(), vars), placeholder(k), string_value(vars, k).unwrap())
    }
}

/// The text holds a `{`.
pub open spec fn has_open_brace(t: Seq<char>) -> bool {
    exists|i: int| 0 <= i < t.len() && t[i] == '{'
}

/// The pattern of a placeholder left unreplaced: a name of letters, digits and
/// underscores in braces.
pub open spec fn unresolved_placeholder_pattern() -> Seq<char> {
    "\\{([a-zA-Z0-9_]+)\\}"@
}

/// The outcome of rendering an f-string: the first needed variable that is not
/// given, else the substituted text unless a placeholder is left.
pub open spec fn f_string_outcome(r: Result<String, PromptLayerError>, prompt: PromptTemplateData, vars: Seq<(String, String)>) -> bool {
    let ins = views_of(prompt.input_variables@);
    let m = first_index_where(ins, not_given(vars));
    if m < ins.len() {
        r matches Err(e) && is_parse(e, "Missing variable in f-string: "@ + ins[m])
    } else {
        let result = substitute_all(prompt.template_text@, ins, vars);
        if has_open_brace(result) && regex_match_result(unresolved_placeholder_pattern(), result) == Some(true) {
            r matches Err(e) && is_parse(e, "f-string contains unresolved placeholders"@)
        } else {
            r matches Ok(s) && s@ == result
        }
    }
}

/// A piece of an f-string template: literal text, or the placeholder of a
/// variable (its name in braces).
pub enum FPiece {
    Lit(Seq<char>),
    Slot(Seq<char>),
}

/// The text of a piece.
pub open spec fn piece_text(p: FPiece) -> Seq<char> {
    match p {
        FPiece::Lit(x) => x,
        FPiece::Slot(k) => placeholder(k),
    }
}

/// The text that the pieces make, one after the other.
pub open spec fn assemble(ps: Seq<FPiece>) -> Seq<char>
    decreases ps.len(),
{
    if ps.len() == 0 {
        Seq::empty()
    } else {
        piece_text(ps[0]) + assemble(ps.drop_first())
    }
}

/// The text holds no brace.
pub open spec fn brace_free(t: Seq<char>) -> bool {
    forall|i: int| 0 <= i < t.len() ==> t[i] != '{' && t[i] != '}'
}

/// Literal pieces hold no `{`, and placeholders name variables without braces.
pub open spec fn pieces_wf(ps: Seq<FPiece>) -> bool {
    forall|j: int|
        0 <= j < ps.len() ==> match #[trigger] ps[j] {
            FPiece::Lit(x) => !has_open_brace(x),
            FPiece::Slot(k) => brace_free(k),
        }
}

/// The piece is literal text without `{`.
pub open spec fn open_free_lit(p: FPiece) -> bool {
    match p {
        FPiece::Lit(x) => !has_open_brace(x),
        FPiece::Slot(_) => false,
    }
}

/// The piece, when a placeholder, names one of `names`.
pub open spec fn slot_named_in(p: FPiece, names: Seq<Seq<char>>) -> bool {
    match p {
        FPiece::Slot(k) => names.contains(k),
        FPiece::Lit(_) => true,
    }
}

/// Each placeholder replaced by the value its variable is given.
pub open spec fn with_values(ps: Seq<FPiece>, vars: Seq<(String, String)>) -> Seq<FPiece> {
    ps.map_values(
        |p: FPiece|
            match p {
                FPiece::Slot(k) => FPiece::Lit(string_value(vars, k).unwrap()),
                FPiece::Lit(x) => FPiece::Lit(x),
            },
    )
}

/// A piece after the placeholder of `k` is replaced by `r`.
pub open spec fn fill_one(p: FPiece, k: Seq<char>, r: Seq<char>) -> FPiece {
    match p {
        FPiece::Slot(k2) => if k2 == k {
            FPiece::Lit(r)
        } else {
            p
        },
        FPiece::Lit(_) => p,
    }
}

/// A piece after the placeholders of `ins`, in order, are replaced by values.
pub open spec fn piece_after(p: FPiece, ins: Seq<Seq<char>>, vars: Seq<(String, String)>) -> FPiece
    decreases ins.len(),
{
    if ins.len() == 0 {
        p
    } else {
        fill_one(piece_after(p, ins.drop_last(), vars), ins.last(), string_value(vars, ins.last()).unwrap())
    }
}

proof fn lemma_replace_skips_plain(x: Seq<char>, y: Seq<char>, p: Seq<char>, r: Seq<char>)
    requires
        !has_open_brace(x),
        p.len() > 0,
        p[0] == '{',
    ensures
        replace_all(x + y, p, r) == x + replace_all(y, p, r),
    decreases x.len(),
{
    let s = x + y;
    if x.len() == 0 {
        assert(s =~= y);
    } else if s.len() < p.len() {
        assert(x + y =~= s);
    } else {
        assert(s.take(p.len() as int)[0] == x[0]);
        assert(x[0] != '{');
        assert(s.take(p.len() as int) != p);
        assert(s.skip(1) =~= x.skip(1) + y);
        assert(!has_open_brace(x.skip(1))) by {
            if has_open_brace(x.skip(1)) {
                let i = choose|i: int| 0 <= i < x.skip(1).len() && x.skip(1)[i] == '{';
                assert(x[i + 1] == '{');
            }
        }
        lemma_replace_skips_plain(x.skip(1), y, p, r);
        assert(seq![s[0]] + (x.skip(1) + replace_all(y, p, r)) =~= x + replace_all(y, p, r));
    }
}

proof fn lemma_replace_at_slot(k2: Seq<char>, y: Seq<char>, k: Seq<char>, r: Seq<char>)
    requires
        brace_free(k),
        brace_free(k2),
    ensures
        replace_all(placeholder(k2) + y, placeholder(k), r) == (if k2 == k {
            r
        } else {
            placeholder(k2)
        }) + replace_all(y, placeholder(k), r),
{
    reveal_strlit("{");
    reveal_strlit("}");
    let p = placeholder(k);
    let q = placeholder(k2);
    let s = q + y;
    assert(p.len() == k.len() + 2);
    assert(q.len() == k2.len() + 2);
    assert(p[0] == '{');
    if k2 == k {
        assert(s.take(p.len() as int) =~= p);
        assert(s.skip(p.len() as int) =~= y);
    } else if s.len() < p.len() {
        assert(y.len() < p.len());
    } else {
        let t = s.take(p.len() as int);
        assert(t != p) by {
            if k.len() < k2.len() {
                let d: int = k.len() as int + 1;
                assert(p[d] == '}');
                assert(t[d] == k2[k.len() as int]);
            } else if k.len() > k2.len() {
                let d: int = k2.len() as int + 1;
                assert(t[d] == '}');
                assert(p[d] == k[k2.len() as int]);
            } else {
                let i = choose|i: int| 0 <= i < k.len() && k[i] != k2[i];
                if !(0 <= i < k.len() && k[i] != k2[i]) {
                    assert(k =~= k2);
                }
                assert(t[i + 1] == k2[i]);
                assert(p[i + 1] == k[i]);
            }
        }
        let x = k2 + "}"@;
        assert(s.skip(1) =~= x + y);
        assert(!has_open_brace(x)) by {
            if has_open_brace(x) {
                let i = choose|i: int| 0 <= i < x.len() && x[i] == '{';
                if i < k2.len() {
                    assert(k2[i] == '{');
                }
            }
        }
        lemma_replace_skips_plain(x, y, p, r);
        assert(seq![s[0]] + (x + replace_all(y, p, r)) =~= q + replace_all(y, p, r));
    }
}

proof fn lemma_replace_pieces(ps: Seq<FPiece>, k: Seq<char>, r: Seq<char>)
    requires
        pieces_wf(ps),
        brace_free(k),
    ensures
        replace_all(assemble(ps), placeholder(k), r) == assemble(ps.map_values(|p: FPiece| fill_one(p, k, r))),
    decreases ps.len(),
{
    reveal_strlit("{");
    let f = ps.map_values(|p: FPiece| fill_one(p, k, r));
    if ps.len() == 0 {
        assert(f =~= Seq::<FPiece>::empty());
    } else {
        let rest = ps.drop_first();
        assert(pieces_wf(rest)) by {
            assert forall|j: int| 0 <= j < rest.len() implies match #[trigger] rest[j] {
                FPiece::Lit(x) => !has_open_brace(x),
                FPiece::Slot(k) => brace_free(k),
            } by {
                assert(rest[j] == ps[j + 1]);
            }
        }
        lemma_replace_pieces(rest, k, r);
        assert(f.drop_first() =~= rest.map_values(|p: FPiece| fill_one(p, k, r)));
        assert(pieces_wf(ps) ==> match ps[0] {
            FPiece::Lit(x) => !has_open_brace(x),
            FPiece::Slot(k) => brace_free(k),
        });
        match ps[0] {
            FPiece::Lit(x) => {
                lemma_replace_skips_plain(x, assemble(rest), placeholder(k), r);
            },
            FPiece::Slot(k2) => {
                lemma_replace_at_slot(k2, assemble(rest), k, r);
            },
        }
    }
}

proof fn lemma_piece_after(p: FPiece, ins: Seq<Seq<char>>, vars: Seq<(String, String)>)
    ensures
        piece_after(p, ins, vars) == match p {
            FPiece::Slot(k) => if ins.contains(k) {
                FPiece::Lit(string_value(vars, k).unwrap())
            } else {
                p
            },
            FPiece::Lit(_) => p,
        },
    decreases ins.len(),
{
    if ins.len() > 0 {
        lemma_piece_after(p, ins.drop_last(), vars);
        match p {
            FPiece::Slot(k) => {
                if ins.drop_last().contains(k) {
                    let i = choose|i: int| 0 <= i < ins.drop_last().len() && ins.drop_last()[i] == k;
                    assert(ins[i] == k);
                }
                if ins.contains(k) && ins.last() != k {
                    let i = choose|i: int| 0 <= i < ins.len() && ins[i] == k;
                    assert(ins.drop_last()[i] == k);
                }
                if ins.last() == k {
                    assert(ins[ins.len() - 1] == k);
                }
            },
            FPiece::Lit(_) => {},
        }
    }
}

proof fn lemma_substitute_pieces(ps: Seq<FPiece>, ins: Seq<Seq<char>>, vars: Seq<(String, String)>)
    requires
        pieces_wf(ps),
        forall|i: int|
            0 <= i < ins.len() ==> brace_free(#[trigger] ins[i]) && string_value(vars, ins[i]) is Some
                && !has_open_brace(string_value(vars, ins[i]).unwrap()),
    ensures
        substitute_all(assemble(ps), ins, vars) == assemble(ps.map_values(|p: FPiece| piece_after(p, ins, vars))),
        pieces_wf(ps.map_values(|p: FPiece| piece_after(p, ins, vars))),
    decreases ins.len(),
{
    let g = ps.map_values(|p: FPiece| piece_after(p, ins, vars));
    if ins.len() == 0 {
        assert(g =~= ps);
    } else {
        let pre = ins.drop_last();
        let k = ins.last();
        let r = string_value(vars, k).unwrap();
        assert(ins[ins.len() - 1] == k);
        lemma_substitute_pieces(ps, pre, vars);
        let h = ps.map_values(|p: FPiece| piece_after(p, pre, vars));
        lemma_replace_pieces(h, k, r);
        assert(h.map_values(|p: FPiece| fill_one(p, k, r)) =~= g);
        assert forall|j: int| 0 <= j < g.len() implies match #[trigger] g[j] {
            FPiece::Lit(x) => !has_open_brace(x),
            FPiece::Slot(k) => brace_free(k),
        } by {
            assert(match h[j] {
                FPiece::Lit(x) => !has_open_brace(x),
                FPiece::Slot(k) => brace_free(k),
            });
        }
    }
}

proof fn lemma_assemble_lits_open_free(ps: Seq<FPiece>)
    requires
        forall|j: int| 0 <= j < ps.len() ==> open_free_lit(#[trigger] ps[j]),
    ensures
        !has_open_brace(assemble(ps)),
    decreases ps.len(),
{
    if ps.len() > 0 {
        let rest = ps.drop_first();
        assert forall|j: int| 0 <= j < rest.len() implies open_free_lit(#[trigger] rest[j]) by {
            assert(rest[j] == ps[j + 1]);
        }
        lemma_assemble_lits_open_free(rest);
        let a = piece_text(ps[0]);
        let b = assemble(rest);
        assert(open_free_lit(ps[0]));
        if has_open_brace(a + b) {
            let i = choose|i: int| 0 <= i < (a + b).len() && (a + b)[i] == '{';
            if i < a.len() {
                assert(a[i] == '{');
            } else {
                assert(b[i - a.len()] == '{');
            }
        }
    }
}

/// An f-string whose braces all belong to placeholders of needed variables
/// renders, when every needed variable is given a value without `{` and no
/// needed name holds a brace, to the text with every placeholder replaced by
/// its variable's value: all of them, in every place they stand.
pub proof fn lemma_f_string_fills_placeholders(
    r: Result<String, PromptLayerError>,
    prompt: PromptTemplateData,
    vars: Seq<(String, String)>,
    pieces: Seq<FPiece>,
)
    requires
        f_string_outcome(r, prompt, vars),
        prompt.template_text@ == assemble(pieces),
        pieces_wf(pieces),
        forall|j: int|
            0 <= j < pieces.len() ==> slot_named_in(#[trigger] pieces[j], views_of(prompt.input_variables@)),
        forall|i: int|
            0 <= i < prompt.input_variables@.len() ==> brace_free((#[trigger] prompt.input_variables@[i])@)
                && string_value(vars, prompt.input_variables@[i]@) is Some && !has_open_brace(
                string_value(vars, prompt.input_variables@[i]@).unwrap(),
            ),
    ensures
        r matches Ok(s) && s@ == assemble(with_values(pieces, vars)),
{
    let ins = views_of(prompt.input_variables@);
    assert forall|i: int| 0 <= i < ins.len() implies brace_free(#[trigger] ins[i]) && string_value(vars, ins[i]) is Some
        && !has_open_brace(string_value(vars, ins[i]).unwrap()) by {
        assert(ins[i] == prompt.input_variables@[i]@);
    }
    assert forall|j: int| 0 <= j < ins.len() implies !not_given(vars)(#[trigger] ins[j]) by {}
    lemma_first_index_where_unique(ins, not_given(vars), ins.len() as int);
    lemma_substitute_pieces(pieces, ins, vars);
    let g = pieces.map_values(|p: FPiece| piece_after(p, ins, vars));
    assert(g =~= with_values(pieces, vars)) by {
        assert forall|j: int| 0 <= j < g.len() implies g[j] == with_values(pieces, vars)[j] by {
            lemma_piece_after(pieces[j], ins, vars);
        }
    }
    assert forall|j: int| 0 <= j < g.len() implies open_free_lit(#[trigger] g[j]) by {
        lemma_piece_after(pieces[j], ins, vars);
        if let FPiece::Slot(k) = pieces[j] {
            let i = choose|i: int| 0 <= i < ins.len() && ins[i] == k;
            assert(!has_open_brace(string_value(vars, ins[i]).unwrap()));
        }
    }
    lemma_assemble_lits_open_free(g);
}

/// Renders an f-string template: each `{name}` of a needed variable replaced by
/// its value; a placeholder left over is an error.
pub fn render_f_string(prompt: &PromptTemplateData, variables: &Vec<(String, String)>) -> (r: Result<
    String,
    PromptLayerError,
>)
    requires
        keys_distinct(entry_keys(variables@)),
    ensures
        f_string_outcome(r, *prompt, variables@),
{
    let ghost ins = views_of(prompt.input_variables@);
    let ghost pred = not_given(variables@);
    let mut result = copy_string(&prompt.template_text);
    let n = prompt.input_variables.len();
    assert(ins.take(0) =~= Seq::<Seq<char>>::empty());
    for i in 0..n
        invariant
            n == prompt.input_variables@.len(),
            ins == views_of(prompt.input_variables@),
            ins.len() == n,
            pred == not_given(variables@),
            forall|j: int| 0 <= j < i ==> !pred(ins[j]),
            result@ == substitute_all(prompt.template_text@, ins.take(i as int), variables@),
    {
        let var = &prompt.input_variables[i];
        assert(ins[i as int] == var@);
        let mut ph = String::from_str("{");
        ph.append(var.as_str());
        ph.append("}");
        proof {
            reveal_strlit("{");
            assert(ph@.len() > 0);
        }
        match find_key(variables, var.as_str()) {
            None => {
                proof {
                    lemma_first_index_where_unique(ins, pred, i as int);
                }
                let mut m = String::from_str("Missing variable in f-string: ");
                m.append(var.as_str());
                return Err(PromptLayerError::Parse(m));
            },
            Some(k) => {
                assert(ins.take(i + 1).drop_last() =~= ins.take(i as int));
                result = replace_str(result.as_str(), ph.as_str(), variables[k].1.as_str());
            },
        }
    }
    proof {
        lemma_first_index_where_unique(ins, pred, n as int);
        assert(ins.take(n as int) =~= ins);
    }
    match regex_is_match("\\{([a-zA-Z0-9_]+)\\}", result.as_str()) {
        Some(true) => Err(PromptLayerError::Parse(String::from_str("f-string contains unresolved placeholders"))),
        _ => Ok(result),
    }
}

/// The outcome of rendering a Jinja template: the text or the error message
/// of `tera` (for a template that uses the clock, chance or the environment,
/// only that it is text or a parse error).
pub open spec fn jinja_outcome(r: Result<String, PromptLayerError>, prompt: PromptTemplateData, vars: Seq<(String, String)>) -> bool {
    if renders_deterministically(prompt.template_text@) {
        match tera_render_named_result("prompt"@, prompt.template_text@, string_pairs(vars)) {
            Ok(text) => r matches Ok(s) && s@ == text,
            Err(m) => r matches Err(e) && is_parse(e, m),
        }
    } else {
        r is Ok || r matches Err(PromptLayerError::Parse(_))
    }
}

/// Renders a Jinja template with `tera`, registered under the name `prompt`;
/// a failure is a parse error with `tera`'s message.
pub fn render_jinja(prompt: &PromptTemplateData, variables: &Vec<(String, String)>) -> (r: Result<
    String,
    PromptLayerError,
>)
    requires
        keys_distinct(entry_keys(variables@)),
        !tera_may_not_return(prompt.template_text@),
    ensures
        jinja_outcome(r, *prompt, variables@),
{
    match tera_render_named("prompt", prompt.template_text.as_str(), variables) {
        Ok(text) => Ok(text),
        Err(m) => Err(PromptLayerError::Parse(m)),
    }
}

/// Renders a template after checking that its variables are given, by its
/// format: `jinja2` or `f-string`.
pub fn render_prompt(prompt: &PromptTemplateData, variables: &Vec<(String, String)>) -> (r: Result<
    String,
    PromptLayerError,
>)
    requires
        keys_distinct(entry_keys(variables@)),
        prompt.template_format@ == "jinja2"@ ==> !tera_may_not_return(prompt.template_text@),
    ensures
        ({
            let missing = missing_inputs(*prompt, variables@);
            if missing.len() > 0 {
                r matches Err(e) && is_parse(
                    e,
                    "Missing variables for prompt '"@ + prompt.name@ + "': "@ + debug_text_of_strings(missing),
                )
            } else if prompt.template_format@ == "jinja2"@ {
                jinja_outcome(r, *prompt, variables@)
            } else if prompt.template_format@ == "f-string"@ {
                f_string_outcome(r, *prompt, variables@)
            } else {
                r matches Err(e) && is_parse(e, "Unsupported template format: "@ + prompt.template_format@)
            }
        }),
{
    match validate_variables(prompt, variables) {
        Err(e) => {
            return Err(e);
        },
        Ok(()) => {},
    }
    if str_eq(prompt.template_format.as_str(), "jinja2") {
        render_jinja(prompt, variables)
    } else if str_eq(prompt.template_format.as_str(), "f-string") {
        render_f_string(prompt, variables)
    } else {
        let mut m = String::from_str("Unsupported template format: ");
        m.append(prompt.template_format.as_str());
        Err(PromptLayerError::Parse(m))
    }
}

/// The PromptLayer address used when none is configured.
pub open spec fn default_base_url() -> Seq<char> {
    "https://api.promptlayer.com"@
}

/// The configured PromptLayer address, or the default one.
pub fn base_url_or_default(configured: Option<String>) -> (r: String)
    ensures
        r@ == match configured {
            Some(u) => u@,
            None => default_base_url(),
        },
{
    match configured {
        Some(u) => u,
        None => String::from_str("https://api.promptlayer.com"),
    }
}

/// The configured environment, or `prod`.
pub fn environment_or_default(configured: Option<String>) -> (r: String)
    ensures
        r@ == match configured {
            Some(e) => e@,
            None => "prod"@,
        },
{
    match configured {
        Some(e) => e,
        None => String::from_str("prod"),
    }
}

/// The address templates are fetched from.
pub fn templates_url(base_url: &str) -> (r: String)
    ensures
        r@ == base_url@ + "/templates/get"@,
{
    let mut u = String::from_str(base_url);
    u.append("/templates/get");
    u
}

/// The value of the `Authorization` header for an API key.
pub fn authorization_value(api_key: &str) -> (r: String)
    ensures
        r@ == "Bearer "@ + api_key@,
{
    let mut v = String::from_str("Bearer ");
    v.append(api_key);
    v
}

/// One lookup of a template: its name, and the label and folder it is looked
/// up under.
#[derive(Debug)]
pub struct TemplateFetch {
    pub template_name: String,
    pub label: Option<String>,
    pub folder_path: Option<String>,
}

/// A lookup as values.
pub open spec fn fetch_view(f: TemplateFetch) -> (Seq<char>, Option<Seq<char>>, Option<Seq<char>>) {
    (
        f.template_name@,
        match f.label {
            Some(l) => Some(l@),
            None => None,
        },
        match f.folder_path {
            Some(p) => Some(p@),
            None => None,
        },
    )
}

/// The lookups of a template, in the order they are tried: by name alone,
/// then with the label (the given one, else the environment), then with the
/// label and the template's folder.
pub open spec fn template_lookups_spec(template: PromptTemplate, label: Seq<char>) -> Seq<
    (Seq<char>, Option<Seq<char>>, Option<Seq<char>>),
> {
    let name = template.spec_name();
    seq![
        (name, None, None),
        (name, Some(label), None),
        (name, Some(label), Some(template.spec_category().spec_as_str())),
    ]
}

/// The lookups of a template; the first that finds it wins.
pub fn template_lookups(template: PromptTemplate, label: Option<&str>, environment: &str) -> (r: Vec<TemplateFetch>)
    ensures
        r@.map_values(|f: TemplateFetch| fetch_view(f)) == template_lookups_spec(
            template,
            match label {
                Some(l) => l@,
                None => environment@,
            },
        ),
{
    let chosen = match label {
        Some(l) => l,
        None => environment,
    };
    let name = template.name();
    let mut r: Vec<TemplateFetch> = Vec::new();
    r.push(TemplateFetch { template_name: String::from_str(name), label: None, folder_path: None });
    r.push(TemplateFetch { template_name: String::from_str(name), label: Some(String::from_str(chosen)), folder_path: None });
    r.push(
        TemplateFetch {
            template_name: String::from_str(name),
            label: Some(String::from_str(chosen)),
            folder_path: Some(String::from_str(template.folder_path())),
        },
    );
    proof {
        assert(r@.map_values(|f: TemplateFetch| fetch_view(f)) =~= template_lookups_spec(
            template,
            match label {
                Some(l) => l@,
                None => environment@,
            },
        ));
    }
    r
}

/// The query of a lookup: the template name, then the label and the folder
/// when the lookup has them.
pub open spec fn fetch_query_spec(f: (Seq<char>, Option<Seq<char>>, Option<Seq<char>>)) -> Seq<(Seq<char>, Seq<char>)> {
    let base = seq![("template_name"@, f.0)];
    let with_label = match f.1 {
        Some(l) => base.push(("label"@, l)),
        None => base,
    };
    match f.2 {
        Some(p) => with_label.push(("folder_path"@, p)),
        None => with_label,
    }
}

/// The query parameters of a lookup.
pub fn fetch_query(f: &TemplateFetch) -> (r: Vec<(String, String)>)
    ensures
        string_pairs(r@) == fetch_query_spec(fetch_view(*f)),
{
    let mut q: Vec<(String, String)> = Vec::new();
    q.push((String::from_str("template_name"), String::from_str(f.template_name.as_str())));
    match &f.label {
        Some(l) => q.push((String::from_str("label"), String::from_str(l.as_str()))),
        None => {},
    }
    match &f.folder_path {
        Some(p) => q.push((String::from_str("folder_path"), String::from_str(p.as_str()))),
        None => {},
    }
    proof {
        assert(string_pairs(q@) =~= fetch_query_spec(fetch_view(*f)));
    }
    q
}

/// The error when no lookup found the template.
pub fn template_not_found(template: PromptTemplate) -> (e: PromptLayerError)
    ensures
        e matches PromptLayerError::NotFound(n) && n@ == template.spec_name(),
{
    PromptLayerError::NotFound(String::from_str(template.name()))
}

} // verus!
