//! What the text of a Jinja template shows about how `tera` will treat it:
//! which of its functions it calls, and whether it uses a form on which
//! `tera` can panic or never return.
//!
//! The scan follows `tera`'s own reading of a template: plain text, the code
//! between `{{`/`{%` and `}}`/`%}` (with the `-` of whitespace control), the
//! string literals inside that code (`"`, `'` or a backtick, no escapes) and
//! comments between `{#` and `#}`. Only the code is searched for hazards, so
//! prose around the tags is never refused.
use vstd::prelude::*;

use crate::text::{occurs_at, occurs_at_exec, to_chars};

verus! {

/// The characters `tera` skips between the tokens of a tag.
pub open spec fn is_tera_space(c: char) -> bool {
    c == ' ' || c == '\t' || c == '\r' || c == '\n'
}

/// A character of an identifier.
pub open spec fn is_ident_char(c: char) -> bool {
    ('a' <= c && c <= 'z') || ('A' <= c && c <= 'Z') || ('0' <= c && c <= '9') || c == '_'
}

/// The first position at or after `i` that holds no space (the length when
/// only spaces follow).
pub open spec fn skip_spaces_forward(t: Seq<char>, i: int) -> int
    decreases t.len() - i,
{
    if 0 <= i < t.len() && is_tera_space(t[i]) {
        skip_spaces_forward(t, i + 1)
    } else {
        i
    }
}

/// The template calls the function `name` at position `i`: the name, not
/// part of a longer identifier, then spaces, then `(`.
pub open spec fn calls_at(t: Seq<char>, i: int, name: Seq<char>) -> bool {
    &&& occurs_at(t, i, name)
    &&& (i == 0 || !is_ident_char(t[i - 1]))
    &&& ({
        let k = skip_spaces_forward(t, i + name.len());
        0 <= k < t.len() && t[k] == '('
    })
}

/// The template calls the function `name` somewhere.
pub open spec fn calls_function(t: Seq<char>, name: Seq<char>) -> bool {
    exists|i: int| #[trigger] calls_at(t, i, name)
}

/// The template calls none of the functions of `tera` whose value depends on
/// the clock, on chance or on the environment (`now`, `get_random`,
/// `get_env`), so what it renders to depends on its text and context alone.
pub open spec fn renders_deterministically(t: Seq<char>) -> bool {
    &&& !calls_function(t, "now"@)
    &&& !calls_function(t, "get_random"@)
    &&& !calls_function(t, "get_env"@)
}

/// The characters `a`, `b` stand at positions `i`, `i + 1`.
pub open spec fn pair_at(t: Seq<char>, i: int, a: char, b: char) -> bool {
    0 <= i && i + 1 < t.len() && t[i] == a && t[i + 1] == b
}

/// The characters `a`, `b`, `c` stand at positions `i` to `i + 2`.
pub open spec fn triple_at(t: Seq<char>, i: int, a: char, b: char, c: char) -> bool {
    0 <= i && i + 2 < t.len() && t[i] == a && t[i + 1] == b && t[i + 2] == c
}

/// The identifier `w` stands at position `i`, not as part of a longer one.
pub open spec fn word_at(t: Seq<char>, i: int, w: Seq<char>) -> bool {
    &&& occurs_at(t, i, w)
    &&& (i == 0 || !is_ident_char(t[i - 1]))
    &&& (i + w.len() >= t.len() || !is_ident_char(t[i + w.len()]))
}

/// The names that, in the code of a tag, can make `tera` panic or never
/// return: `include` and `import` (a template that includes or imports
/// itself recurses without end), `raw` (a raw block hides code from this
/// scan), `range` (a step of zero loops forever, a huge end exhausts memory),
/// `date` (panics on timestamps out of range), `get_random` (panics on an
/// empty range), `abs` (overflows on the least `i64`) and `int` (panics on a
/// base outside 2 to 36).
pub open spec fn hazard_words() -> Seq<Seq<char>> {
    seq!["include"@, "import"@, "raw"@, "range"@, "date"@, "get_random"@, "abs"@, "int"@]
}

/// What, at position `i` of a tag's code, can make `tera` panic or never
/// return: `+`, `-` and `%` (a float sum that overflows, the least `i64`
/// modulo -1), `::` (a macro call; a macro may call itself without end), a
/// digit followed by `.` (a float literal, which may overflow), or one of the
/// names of `hazard_words`.
pub open spec fn code_hazard_at(t: Seq<char>, i: int) -> bool {
    ||| t[i] == '+' || t[i] == '-' || t[i] == '%'
    ||| pair_at(t, i, ':', ':')
    ||| ('0' <= t[i] && t[i] <= '9' && i + 1 < t.len() && t[i + 1] == '.')
    ||| exists|k: int| 0 <= k < hazard_words().len() && #[trigger] word_at(t, i, hazard_words()[k])
}

/// Where the scan of a template stands.
#[derive(Clone, Copy)]
pub enum TagMode {
    /// Plain text, copied out as it stands.
    Text,
    /// The code of a `{{ .. }}` or `{% .. %}` tag.
    Code,
    /// A string literal inside a tag's code, with its quote.
    Quoted(char),
    /// A `{# .. #}` comment.
    Comment,
}

/// Whether the scan, from position `i` in mode `m`, meets a hazard in a
/// tag's code before the end of the text.
pub open spec fn hazard_from(t: Seq<char>, i: int, m: TagMode) -> bool
    decreases t.len() - i,
{
    if !(0 <= i < t.len()) {
        false
    } else {
        match m {
            TagMode::Text => if triple_at(t, i, '{', '{', '-') || triple_at(t, i, '{', '%', '-') {
                hazard_from(t, i + 3, TagMode::Code)
            } else if pair_at(t, i, '{', '{') || pair_at(t, i, '{', '%') {
                hazard_from(t, i + 2, TagMode::Code)
            } else if pair_at(t, i, '{', '#') {
                hazard_from(t, i + 2, TagMode::Comment)
            } else {
                hazard_from(t, i + 1, TagMode::Text)
            },
            TagMode::Code => if triple_at(t, i, '-', '}', '}') || triple_at(t, i, '-', '%', '}') {
                hazard_from(t, i + 3, TagMode::Text)
            } else if pair_at(t, i, '}', '}') || pair_at(t, i, '%', '}') {
                hazard_from(t, i + 2, TagMode::Text)
            } else if code_hazard_at(t, i) {
                true
            } else if t[i] == '"' || t[i] == '\'' || t[i] == '`' {
                hazard_from(t, i + 1, TagMode::Quoted(t[i]))
            } else {
                hazard_from(t, i + 1, TagMode::Code)
            },
            TagMode::Quoted(q) => if t[i] == q {
                hazard_from(t, i + 1, TagMode::Code)
            } else {
                hazard_from(t, i + 1, TagMode::Quoted(q))
            },
            TagMode::Comment => if pair_at(t, i, '#', '}') {
                hazard_from(t, i + 2, TagMode::Text)
            } else {
                hazard_from(t, i + 1, TagMode::Comment)
            },
        }
    }
}

/// The template uses, in the code of a tag, a form on which `tera` can panic
/// or never return (see `code_hazard_at`). The test is on the text, so it
/// errs on the side of caution: it refuses such a form whatever the values.
pub open spec fn tera_may_not_return(t: Seq<char>) -> bool {
    hazard_from(t, 0, TagMode::Text)
}

fn ident_char_exec(c: char) -> (r: bool)
    ensures
        r == is_ident_char(c),
{
    ('a' <= c && c <= 'z') || ('A' <= c && c <= 'Z') || ('0' <= c && c <= '9') || c == '_'
}

fn word_at_exec(cs: &Vec<char>, i: usize, w: &Vec<char>) -> (r: bool)
    requires
        i < cs@.len(),
    ensures
        r == word_at(cs@, i as int, w@),
{
    if !occurs_at_exec(cs, i, w) {
        return false;
    }
    if i > 0 && ident_char_exec(cs[i - 1]) {
        return false;
    }
    let rest = cs.len() - i;
    let wl = w.len();
    assert(wl <= rest);
    let e = i + wl;
    if e < cs.len() && ident_char_exec(cs[e]) {
        return false;
    }
    true
}

fn hazard_word_list() -> (r: Vec<Vec<char>>)
    ensures
        r@.len() == hazard_words().len(),
        forall|k: int| 0 <= k < r@.len() ==> (#[trigger] r@[k])@ == hazard_words()[k],
{
    let mut r: Vec<Vec<char>> = Vec::new();
    r.push(to_chars("include"));
    r.push(to_chars("import"));
    r.push(to_chars("raw"));
    r.push(to_chars("range"));
    r.push(to_chars("date"));
    r.push(to_chars("get_random"));
    r.push(to_chars("abs"));
    r.push(to_chars("int"));
    r
}

fn code_hazard_exec(cs: &Vec<char>, i: usize, words: &Vec<Vec<char>>) -> (r: bool)
    requires
        i < cs@.len(),
        words@.len() == hazard_words().len(),
        forall|k: int| 0 <= k < words@.len() ==> (#[trigger] words@[k])@ == hazard_words()[k],
    ensures
        r == code_hazard_at(cs@, i as int),
{
    let n = cs.len();
    let c = cs[i];
    if c == '+' || c == '-' || c == '%' {
        return true;
    }
    if i + 1 < n && c == ':' && cs[i + 1] == ':' {
        return true;
    }
    if '0' <= c && c <= '9' && i + 1 < n && cs[i + 1] == '.' {
        return true;
    }
    let m = words.len();
    for k in 0..m
        invariant
            m == words@.len(),
            m == hazard_words().len(),
            i < cs@.len(),
            forall|j: int| 0 <= j < words@.len() ==> (#[trigger] words@[j])@ == hazard_words()[j],
            forall|j: int| 0 <= j < k ==> !#[trigger] word_at(cs@, i as int, hazard_words()[j]),
    {
        if word_at_exec(cs, i, &words[k]) {
            return true;
        }
    }
    false
}

/// Whether a template uses, in the code of a tag, a form on which `tera` can
/// panic or never return.
pub fn may_not_return(template: &str) -> (r: bool)
    ensures
        r == tera_may_not_return(template@),
{
    let cs = to_chars(template);
    let words = hazard_word_list();
    let n = cs.len();
    let ghost t = cs@;
    let mut i: usize = 0;
    let mut mode = TagMode::Text;
    while i < n
        invariant
            n == t.len(),
            t == cs@,
            t == template@,
            i <= n,
            words@.len() == hazard_words().len(),
            forall|k: int| 0 <= k < words@.len() ==> (#[trigger] words@[k])@ == hazard_words()[k],
            tera_may_not_return(t) == hazard_from(t, i as int, mode),
        decreases n - i,
    {
        match mode {
            TagMode::Text => {
                if n - i > 2 && cs[i] == '{' && (cs[i + 1] == '{' || cs[i + 1] == '%') && cs[i + 2] == '-' {
                    i = i + 3;
                    mode = TagMode::Code;
                } else if i + 1 < n && cs[i] == '{' && (cs[i + 1] == '{' || cs[i + 1] == '%') {
                    i = i + 2;
                    mode = TagMode::Code;
                } else if i + 1 < n && cs[i] == '{' && cs[i + 1] == '#' {
                    i = i + 2;
                    mode = TagMode::Comment;
                } else {
                    i = i + 1;
                }
            },
            TagMode::Code => {
                if n - i > 2 && cs[i] == '-' && (cs[i + 1] == '}' || cs[i + 1] == '%') && cs[i + 2] == '}' {
                    i = i + 3;
                    mode = TagMode::Text;
                } else if i + 1 < n && (cs[i] == '}' || cs[i] == '%') && cs[i + 1] == '}' {
                    i = i + 2;
                    mode = TagMode::Text;
                } else if code_hazard_exec(&cs, i, &words) {
                    return true;
                } else if cs[i] == '"' || cs[i] == '\'' || cs[i] == '`' {
                    mode = TagMode::Quoted(cs[i]);
                    i = i + 1;
                } else {
                    i = i + 1;
                }
            },
            TagMode::Quoted(q) => {
                if cs[i] == q {
                    mode = TagMode::Code;
                }
                i = i + 1;
            },
            TagMode::Comment => {
                if i + 1 < n && cs[i] == '#' && cs[i + 1] == '}' {
                    i = i + 2;
                    mode = TagMode::Text;
                } else {
                    i = i + 1;
                }
            },
        }
    }
    false
}

} // verus!
