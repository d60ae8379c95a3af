//! The calls this library makes into other crates and into std where vstd
//! says nothing of them. Each function here is trusted: Verus believes its
//! contract without reading its body.
use vstd::prelude::*;

use crate::template_scan::{renders_deterministically, tera_may_not_return};

verus! {

/// What `tera::Tera::default().render_str(template, context)` gives back, the
/// error by its `Display` text, for a context read from the JSON text of an
/// object.
pub uninterp spec fn tera_render_str_result(template: Seq<char>, context_json: Seq<char>) -> Result<Seq<char>, Seq<char>>;

/// Reads `context_json` with `serde_json::from_str`, makes it a context with
/// `tera::Context::from_value`, and calls `tera::Tera::render_str` on a fresh
/// `Tera`. Claimed: for a template that calls none of the clock, chance and
/// environment functions, the outcome depends on the template and the text
/// alone (`tera_render_str_result`); nothing is claimed of what the text is,
/// nor of other templates. Templates whose tags hold a form on which `tera`
/// can panic or never return (`tera_may_not_return`: arithmetic with `+`,
/// `-` or `%`, macro calls, includes, imports, raw blocks, float literals,
/// and the names `range`, `date`, `get_random`, `abs` and `int`) are left
/// out. Left unsaid: that the call returns on a template nested so deeply
/// that `tera`'s recursive parser or renderer exhausts the stack, which
/// depends on the machine.
#[verifier::external_body]
pub(crate) fn tera_render_str(template: &str, context_json: &str) -> (r: Result<String, String>)
    requires
        !tera_may_not_return(template@),
    ensures
        renders_deterministically(template@) ==> (match r {
            Ok(s) => Ok::<Seq<char>, Seq<char>>(s@),
            Err(e) => Err::<Seq<char>, Seq<char>>(e@),
        }) == tera_render_str_result(template@, context_json@),
{
    let value: serde_json::Value = serde_json::from_str(context_json).map_err(|e| e.to_string())?;
    let ctx = tera::Context::from_value(value).map_err(|e| e.to_string())?;
    tera::Tera::default().render_str(template, &ctx).map_err(|e| e.to_string())
}

/// What `Tera::add_raw_template` followed by `Tera::render` gives back, the
/// error by its `Display` text, for a template registered under `name` and a
/// context of string entries.
pub uninterp spec fn tera_render_named_result(name: Seq<char>, template: Seq<char>, context: Seq<(Seq<char>, Seq<char>)>) -> Result<Seq<char>, Seq<char>>;

/// The entries of a list of string pairs, as characters.
pub open spec fn string_pairs(entries: Seq<(String, String)>) -> Seq<(Seq<char>, Seq<char>)> {
    entries.map_values(|e: (String, String)| (e.0@, e.1@))
}

/// Calls `tera::Tera::add_raw_template(name, template)` on a fresh `Tera` and,
/// when that succeeds, `Tera::render(name, context)`. Claimed: for a template
/// that calls none of the clock, chance and environment functions, the
/// outcome depends on its arguments alone (`tera_render_named_result`);
/// nothing is claimed of other templates. The templates left out, and what is
/// left unsaid, are those of `tera_render_str`.
#[verifier::external_body]
pub(crate) fn tera_render_named(name: &str, template: &str, context: &Vec<(String, String)>) -> (r: Result<String, String>)
    requires
        !tera_may_not_return(template@),
    ensures
        renders_deterministically(template@) ==> (match r {
            Ok(s) => Ok::<Seq<char>, Seq<char>>(s@),
            Err(e) => Err::<Seq<char>, Seq<char>>(e@),
        }) == tera_render_named_result(name@, template@, string_pairs(context@)),
{
    let mut tera = tera::Tera::default();
    tera.add_raw_template(name, template).map_err(|e| e.to_string())?;
    let mut ctx = tera::Context::new();
    for (k, v) in context.iter() {
        ctx.insert(k.as_str(), v);
    }
    tera.render(name, &ctx).map_err(|e| e.to_string())
}

/// The patterns this library compiles. Each is well formed in the syntax that
/// the `regex` crate documents (escaped braces and `%`, `\s`, classes,
/// repetitions, one capture group and a non-capturing alternation) and far
/// below its default size limit, so `regex::Regex::new` accepts it.
pub open spec fn known_valid_pattern(p: Seq<char>) -> bool {
    ||| p == "\\{([a-zA-Z0-9_]+)\\}"@
    ||| p == "\\{\\{\\s*([a-zA-Z_][a-zA-Z0-9_]*)"@
    ||| p == "\\{\\%\\s*for\\s+[a-zA-Z_][a-zA-Z0-9_]*\\s+in\\s+([a-zA-Z_][a-zA-Z0-9_]*)"@
    ||| p == "\\{\\%\\s*(?:if|elif|set)\\s+([a-zA-Z_][a-zA-Z0-9_]*)"@
}

/// What `regex::Regex::new(pattern)` and then `Regex::is_match(text)` give:
/// nothing when the pattern does not compile, else whether the text has a match.
pub uninterp spec fn regex_match_result(pattern: Seq<char>, text: Seq<char>) -> Option<bool>;

/// Compiles `pattern` with `regex::Regex::new` and tests `text` with
/// `Regex::is_match`. Claimed: the outcome depends on the two strings alone,
/// the patterns of `known_valid_pattern` compile, and a text without `{` has
/// no match of the placeholder pattern `\{([a-zA-Z0-9_]+)\}`, every match of
/// which begins with the literal `{`.
#[verifier::external_body]
pub(crate) fn regex_is_match(pattern: &str, text: &str) -> (r: Option<bool>)
    ensures
        r == regex_match_result(pattern@, text@),
        known_valid_pattern(pattern@) ==> r is Some,
        pattern@ == "\\{([a-zA-Z0-9_]+)\\}"@ && (forall|i: int| 0 <= i < text@.len() ==> text@[i] != '{')
            ==> r == Some(false),
{
    match regex::Regex::new(pattern) {
        Ok(re) => Some(re.is_match(text)),
        Err(_) => None,
    }
}

/// What `regex::Regex::new(pattern)` and then `Regex::captures_iter(text)`
/// give, each match by its first capture group: nothing when the pattern does
/// not compile.
pub uninterp spec fn regex_captures_result(pattern: Seq<char>, text: Seq<char>) -> Option<Seq<Option<Seq<char>>>>;

/// The options of strings, as characters.
pub open spec fn optional_views(items: Seq<Option<String>>) -> Seq<Option<Seq<char>>> {
    items.map_values(|o: Option<String>| match o {
        Some(s) => Some(s@),
        None => None,
    })
}

/// Compiles `pattern` with `regex::Regex::new` and lists, for each match that
/// `Regex::captures_iter(text)` finds, its first capture group. Claimed: the
/// outcome depends on the two strings alone, and the patterns of
/// `known_valid_pattern` compile.
#[verifier::external_body]
pub(crate) fn regex_captures_first_group(pattern: &str, text: &str) -> (r: Option<Vec<Option<String>>>)
    ensures
        (match r {
            Some(v) => Some(optional_views(v@)),
            None => None,
        }) == regex_captures_result(pattern@, text@),
        known_valid_pattern(pattern@) ==> r is Some,
{
    match regex::Regex::new(pattern) {
        Ok(re) => Some(re.captures_iter(text).map(|c| c.get(1).map(|m| m.as_str().to_string())).collect()),
        Err(_) => None,
    }
}

/// The characters that std's `char::to_uppercase` yields for `c`.
pub uninterp spec fn unicode_uppercase(c: char) -> Seq<char>;

/// Calls `char::to_uppercase` and collects what it yields. Claimed: the result
/// depends on the character alone.
#[verifier::external_body]
pub(crate) fn char_to_uppercase(c: char) -> (r: Vec<char>)
    ensures
        r@ == unicode_uppercase(c),
{
    c.to_uppercase().collect()
}

/// What `serde_json` makes of a JSON text: the text it writes back in compact
/// form after reading it as a `serde_json::Value` (the value's `Display`), or
/// nothing when the text is not JSON.
pub uninterp spec fn serde_json_compact(text: Seq<char>) -> Option<Seq<char>>;

/// Reads a JSON text with `serde_json::from_str` and writes the value back
/// with its `Display` (`Value::to_string`). Claimed: the outcome depends on
/// the text alone.
#[verifier::external_body]
pub(crate) fn json_reformat(text: &str) -> (r: Option<String>)
    ensures
        (match r {
            Some(s) => Some(s@),
            None => None,
        }) == serde_json_compact(text@),
{
    serde_json::from_str::<serde_json::Value>(text).ok().map(|v| v.to_string())
}

/// What `format!("{:?}", items)` writes for a `Vec<String>` holding `items`.
pub uninterp spec fn debug_text_of_strings(items: Seq<Seq<char>>) -> Seq<char>;

/// Formats a list of strings with its `Debug` impl. Claimed: the text depends
/// on the strings alone.
#[verifier::external_body]
pub(crate) fn debug_strings(items: &Vec<String>) -> (r: String)
    ensures
        r@ == debug_text_of_strings(items@.map_values(|s: String| s@)),
{
    format!("{:?}", items)
}

/// A lowercase hexadecimal digit.
pub open spec fn is_lower_hex(c: char) -> bool {
    ('0' <= c && c <= '9') || ('a' <= c && c <= 'f')
}

/// The shape of a UUID in its hyphenated lowercase text: 36 characters,
/// hyphens at positions 8, 13, 18 and 23, lowercase hex digits elsewhere.
pub open spec fn is_uuid_text(s: Seq<char>) -> bool {
    &&& s.len() == 36
    &&& forall|i: int|
        0 <= i < 36 ==> if i == 8 || i == 13 || i == 18 || i == 23 {
            #[trigger] s[i] == '-'
        } else {
            is_lower_hex(s[i])
        }
}

/// A fresh random identifier: `uuid::Uuid::new_v4().to_string()`. Claimed: the
/// text has the hyphenated lowercase shape that uuid's `Display` writes
/// (`format_hyphenated` in its source); which identifier comes out is left
/// open. The call panics only when the system gives no random bytes.
#[verifier::external_body]
pub(crate) fn new_call_id() -> (r: String)
    ensures
        is_uuid_text(r@),
{
    uuid::Uuid::new_v4().to_string()
}

/// Appends one character to a `String` with std's `String::push`. Claimed:
/// the string's characters are the old ones followed by `c`.
#[verifier::external_body]
pub(crate) fn push_char(s: &mut String, c: char)
    ensures
        final(s)@ == old(s)@.push(c),
{
    s.push(c);
}

} // verus!
