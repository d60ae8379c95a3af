//! Compact JSON text of the library's values, character by character, with
//! the escapes of JSON strings: the form in which values are handed to
//! `serde_json` and `tera`, and from which `serde_json` writes the text it
//! shows.
use vstd::prelude::*;

use crate::bindings::{json_reformat, push_char, serde_json_compact};
use crate::json::{
    entry_models_of, lemma_entry_models_of, lemma_models_of, models_of, JsonModel, JsonNumber,
    JsonValue, NumberModel,
};
use crate::text::{decimal, push_decimal};

verus! {

/// A lowercase hexadecimal digit of a value below 16.
pub open spec fn hex_digit(d: int) -> char {
    if d < 10 {
        crate::text::digit_char(d as nat)
    } else if d == 10 {
        'a'
    } else if d == 11 {
        'b'
    } else if d == 12 {
        'c'
    } else if d == 13 {
        'd'
    } else if d == 14 {
        'e'
    } else {
        'f'
    }
}

/// How a character is written inside a JSON string: quote and backslash
/// behind a backslash, the usual control characters by their short escapes,
/// the other control characters as `\u00XX`, everything else as it is.
pub open spec fn escape_char(c: char) -> Seq<char> {
    if c == '"' {
        seq!['\\', '"']
    } else if c == '\\' {
        seq!['\\', '\\']
    } else if c == '\u{8}' {
        seq!['\\', 'b']
    } else if c == '\t' {
        seq!['\\', 't']
    } else if c == '\n' {
        seq!['\\', 'n']
    } else if c == '\u{c}' {
        seq!['\\', 'f']
    } else if c == '\r' {
        seq!['\\', 'r']
    } else if (c as int) < 32 {
        seq!['\\', 'u', '0', '0', hex_digit((c as int) / 16), hex_digit((c as int) % 16)]
    } else {
        seq![c]
    }
}

/// The characters of a string, each escaped.
pub open spec fn escaped(s: Seq<char>) -> Seq<char>
    decreases s.len(),
{
    if s.len() == 0 {
        Seq::empty()
    } else {
        escaped(s.drop_last()) + escape_char(s.last())
    }
}

/// A JSON string literal.
pub open spec fn quoted(s: Seq<char>) -> Seq<char> {
    "\""@ + escaped(s) + "\""@
}

/// The text of a number: an integer in decimal, a fraction as it was read.
pub open spec fn number_text(n: NumberModel) -> Seq<char> {
    match n {
        NumberModel::PosInt(u) => decimal(u as nat),
        NumberModel::NegInt(i) => if i < 0 {
            "-"@ + decimal((-i) as nat)
        } else {
            decimal(i as nat)
        },
        NumberModel::Float(t) => t,
    }
}

/// The compact JSON text of a value: no whitespace, object entries in order.
pub open spec fn json_text_spec(v: JsonModel) -> Seq<char>
    decreases v, 1nat,
{
    match v {
        JsonModel::Null => "null"@,
        JsonModel::Bool(b) => if b {
            "true"@
        } else {
            "false"@
        },
        JsonModel::Number(n) => number_text(n),
        JsonModel::Str(s) => quoted(s),
        JsonModel::Array(items) => "["@ + items_text(items) + "]"@,
        JsonModel::Object(entries) => "{"@ + entries_text(entries) + "}"@,
    }
}

/// The elements of an array, separated by commas.
pub open spec fn items_text(items: Seq<JsonModel>) -> Seq<char>
    decreases items, 0nat,
{
    if items.len() == 0 {
        Seq::empty()
    } else if items.len() == 1 {
        json_text_spec(items[0])
    } else {
        items_text(items.drop_last()) + ","@ + json_text_spec(items.last())
    }
}

/// The entries of an object as `"key":value`, separated by commas.
pub open spec fn entries_text(entries: Seq<(Seq<char>, JsonModel)>) -> Seq<char>
    decreases entries, 0nat,
{
    if entries.len() == 0 {
        Seq::empty()
    } else if entries.len() == 1 {
        quoted(entries[0].0) + ":"@ + json_text_spec(entries[0].1)
    } else {
        entries_text(entries.drop_last()) + ","@ + quoted(entries.last().0) + ":"@ + json_text_spec(
            entries.last().1,
        )
    }
}

fn hex_digit_exec(d: u32) -> (c: char)
    requires
        d < 16,
    ensures
        c == hex_digit(d as int),
{
    if d < 10 {
        crate::text::digit_char_exec(d as u64)
    } else if d == 10 {
        'a'
    } else if d == 11 {
        'b'
    } else if d == 12 {
        'c'
    } else if d == 13 {
        'd'
    } else if d == 14 {
        'e'
    } else {
        'f'
    }
}

/// Appends a character as it is written inside a JSON string.
fn push_escaped_char(out: &mut String, c: char)
    ensures
        final(out)@ == old(out)@ + escape_char(c),
{
    let ghost start = out@;
    if c == '"' {
        push_char(out, '\\');
        push_char(out, '"');
    } else if c == '\\' {
        push_char(out, '\\');
        push_char(out, '\\');
    } else if c == '\u{8}' {
        push_char(out, '\\');
        push_char(out, 'b');
    } else if c == '\t' {
        push_char(out, '\\');
        push_char(out, 't');
    } else if c == '\n' {
        push_char(out, '\\');
        push_char(out, 'n');
    } else if c == '\u{c}' {
        push_char(out, '\\');
        push_char(out, 'f');
    } else if c == '\r' {
        push_char(out, '\\');
        push_char(out, 'r');
    } else if (c as u32) < 32 {
        let code = c as u32;
        push_char(out, '\\');
        push_char(out, 'u');
        push_char(out, '0');
        push_char(out, '0');
        push_char(out, hex_digit_exec(code / 16));
        push_char(out, hex_digit_exec(code % 16));
    } else {
        push_char(out, c);
    }
    assert(out@ =~= start + escape_char(c));
}

/// Appends a string as a JSON string literal.
fn push_quoted(out: &mut String, s: &str)
    ensures
        final(out)@ == old(out)@ + quoted(s@),
{
    let ghost start = out@;
    push_char(out, '"');
    proof {
        reveal_strlit("\"");
        assert(escaped(Seq::<char>::empty()) =~= Seq::<char>::empty());
        assert(out@ =~= start + "\""@ + escaped(s@.take(0)));
    }
    let cs = crate::text::to_chars(s);
    let n = cs.len();
    for i in 0..n
        invariant
            n == cs@.len(),
            cs@ == s@,
            out@ == start + "\""@ + escaped(cs@.take(i as int)),
    {
        push_escaped_char(out, cs[i]);
        proof {
            assert(cs@.take(i + 1).drop_last() =~= cs@.take(i as int));
            assert(out@ =~= start + "\""@ + escaped(cs@.take(i + 1)));
        }
    }
    push_char(out, '"');
    proof {
        reveal_strlit("\"");
        assert(cs@.take(n as int) =~= cs@);
        assert(out@ =~= start + quoted(s@));
    }
}

/// Appends the text of a number.
fn push_number(out: &mut String, n: &JsonNumber)
    ensures
        final(out)@ == old(out)@ + number_text(n@),
{
    match n {
        JsonNumber::PosInt(u) => push_decimal(out, *u),
        JsonNumber::NegInt(i) => {
            if *i < 0 {
                let ghost start = out@;
                out.append("-");
                let magnitude: u64 = if *i == i64::MIN {
                    9223372036854775808u64
                } else {
                    (-*i) as u64
                };
                push_decimal(out, magnitude);
                assert(out@ =~= start + number_text(n@));
            } else {
                push_decimal(out, *i as u64);
            }
        },
        JsonNumber::Float(t) => out.append(t.as_str()),
    }
}

/// Appends the compact JSON text of a value.
#[verifier::loop_isolation(false)]
#[verifier::rlimit(50)]
pub fn push_json(out: &mut String, v: &JsonValue)
    ensures
        final(out)@ == old(out)@ + json_text_spec(v@),
    decreases v,
{
    let ghost start = out@;
    match v {
        JsonValue::Null => out.append("null"),
        JsonValue::Bool(b) => {
            if *b {
                out.append("true");
            } else {
                out.append("false");
            }
        },
        JsonValue::Number(n) => push_number(out, n),
        JsonValue::String(s) => push_quoted(out, s.as_str()),
        JsonValue::Array(items) => {
            let ghost ms = models_of(items@);
            proof {
                lemma_models_of(items@);
            }
            out.append("[");
            let n = items.len();
            for i in 0..n
                invariant
                    n == items@.len(),
                    ms == models_of(items@),
                    ms.len() == n,
                    out@ == start + "["@ + items_text(ms.take(i as int)),
            {
                proof {
                    assert(decreases_to!(items@ => items@[i as int]));
                    assert(decreases_to!(*items => items@));
                }
                let ghost before = out@;
                if i > 0 {
                    out.append(",");
                }
                push_json(out, &items[i]);
                proof {
                    let t = ms.take(i + 1);
                    assert(t.drop_last() =~= ms.take(i as int));
                    assert(t.last() == ms[i as int]);
                    if i == 0 {
                        assert(t[0] == ms[0]);
                    }
                    assert(out@ =~= start + "["@ + items_text(t));
                }
            }
            out.append("]");
            proof {
                assert(ms.take(n as int) =~= ms);
                assert(out@ =~= start + json_text_spec(v@));
            }
        },
        JsonValue::Object(entries) => {
            let ghost ms = entry_models_of(entries@);
            proof {
                lemma_entry_models_of(entries@);
            }
            out.append("{");
            let n = entries.len();
            for i in 0..n
                invariant
                    n == entries@.len(),
                    ms == entry_models_of(entries@),
                    ms.len() == n,
                    out@ == start + "{"@ + entries_text(ms.take(i as int)),
            {
                proof {
                    assert(decreases_to!(entries@[i as int] => entries@[i as int].1));
                    assert(decreases_to!(entries@ => entries@[i as int]));
                    assert(decreases_to!(*entries => entries@));
                }
                if i > 0 {
                    out.append(",");
                }
                push_quoted(out, entries[i].0.as_str());
                out.append(":");
                push_json(out, &entries[i].1);
                proof {
                    let t = ms.take(i + 1);
                    assert(t.drop_last() =~= ms.take(i as int));
                    assert(t.last() == ms[i as int]);
                    if i == 0 {
                        assert(t[0] == ms[0]);
                    }
                    assert(out@ =~= start + "{"@ + entries_text(t));
                }
            }
            out.append("}");
            proof {
                assert(ms.take(n as int) =~= ms);
                assert(out@ =~= start + json_text_spec(v@));
            }
        },
    }
}

/// The compact JSON text of a value.
pub fn json_text(v: &JsonValue) -> (r: String)
    ensures
        r@ == json_text_spec(v@),
{
    let mut out = String::new();
    push_json(&mut out, v);
    assert(Seq::<char>::empty() + json_text_spec(v@) =~= json_text_spec(v@));
    out
}

/// The text `serde_json` shows for a value: the value's compact JSON text as
/// `serde_json` reads it and writes it back (the text itself where
/// `serde_json` cannot read it).
pub open spec fn shown_json(v: JsonModel) -> Seq<char> {
    match serde_json_compact(json_text_spec(v)) {
        Some(s) => s,
        None => json_text_spec(v),
    }
}

/// The text `serde_json` shows for a value (its `Display`).
pub fn show_json(v: &JsonValue) -> (r: String)
    ensures
        r@ == shown_json(v@),
{
    let text = json_text(v);
    match json_reformat(text.as_str()) {
        Some(s) => s,
        None => text,
    }
}

} // verus!
