//! A JSON document held as plain values, and its compact text.
use vstd::prelude::*;

use crate::decimal::{dec, dec_signed, push_dec, push_dec_signed};
use crate::ffi::json_text::{json_bool, json_str, push_bool, push_json_str};

verus! {

/// A JSON number as `serde_json` holds one: a non-negative integer, a
/// negative integer, or a number that is not an integer, kept by its text.
#[derive(Debug)]
pub enum JsonNumber {
    PosInt(u64),
    NegInt(i64),
    Float(String),
}

/// A JSON value. An object keeps its entries in the order given.
#[derive(Debug)]
pub enum JsonValue {
    Null,
    Bool(bool),
    Number(JsonNumber),
    Str(String),
    Array(Vec<JsonValue>),
    Object(Vec<(String, JsonValue)>),
}

/// The text of a number: decimal for integers, the kept text otherwise.
pub open spec fn number_text(n: JsonNumber) -> Seq<char> {
    match n {
        JsonNumber::PosInt(u) => dec(u as nat),
        JsonNumber::NegInt(i) => dec_signed(i as int),
        JsonNumber::Float(t) => t@,
    }
}

/// The compact JSON text of a value, with no whitespace.
pub open spec fn render(v: JsonValue) -> Seq<char>
    decreases v,
{
    match v {
        JsonValue::Null => "null"@,
        JsonValue::Bool(b) => json_bool(b),
        JsonValue::Number(n) => number_text(n),
        JsonValue::Str(s) => json_str(s@),
        JsonValue::Array(a) => seq!['['] + render_items(a@) + seq![']'],
        JsonValue::Object(m) => seq!['{'] + render_entries(m@) + seq!['}'],
    }
}

/// The comma-separated texts of `items`.
pub open spec fn render_items(items: Seq<JsonValue>) -> Seq<char>
    decreases items,
{
    if items.len() == 0 {
        Seq::empty()
    } else {
        let head = render(items[0]);
        if items.len() == 1 {
            head
        } else {
            head + seq![','] + render_items(items.subrange(1, items.len() as int))
        }
    }
}

/// The `"key":value` text of one object entry.
pub open spec fn render_entry(e: (String, JsonValue)) -> Seq<char>
    decreases e,
{
    json_str(e.0@) + seq![':'] + render(e.1)
}

/// The comma-separated `"key":value` texts of `entries`.
pub open spec fn render_entries(entries: Seq<(String, JsonValue)>) -> Seq<char>
    decreases entries,
{
    if entries.len() == 0 {
        Seq::empty()
    } else {
        let head = render_entry(entries[0]);
        if entries.len() == 1 {
            head
        } else {
            head + seq![','] + render_entries(entries.subrange(1, entries.len() as int))
        }
    }
}

/// Append the text of a number.
pub fn push_number(out: &mut String, n: &JsonNumber)
    ensures
        final(out)@ == old(out)@ + number_text(*n),
{
    match n {
        JsonNumber::PosInt(u) => push_dec(out, *u),
        JsonNumber::NegInt(i) => push_dec_signed(out, *i),
        JsonNumber::Float(t) => out.append(t.as_str()),
    }
}

/// Append the compact JSON text of `v` (see [`render`]).
pub fn push_render(out: &mut String, v: &JsonValue)
    ensures
        final(out)@ == old(out)@ + render(*v),
    decreases v,
{
    proof {
        reveal_strlit("null");
    }
    match v {
        JsonValue::Null => out.append("null"),
        JsonValue::Bool(b) => push_bool(out, *b),
        JsonValue::Number(n) => push_number(out, n),
        JsonValue::Str(s) => push_json_str(out, s.as_str()),
        JsonValue::Array(a) => {
            let ghost start = out@;
            out.append("[");
            proof {
                reveal_strlit("[");
            }
            let mut i: usize = 0;
            while i < a.len()
                invariant
                    0 <= i <= a@.len(),
                    *v == JsonValue::Array(*a),
                    out@ == start + seq!['['] + render_items(a@.take(i as int)),
                decreases a@.len() - i,
            {
                proof {
                    assert(decreases_to!(a@ => a@[i as int]));
                    assert(decreases_to!(*a => a@));
                    assert(decreases_to!(*v => (*v)->Array_0));
                }
                if i > 0 {
                    out.append(",");
                    proof {
                        reveal_strlit(",");
                    }
                }
                push_render(out, &a[i]);
                i = i + 1;
                proof {
                    lemma_render_items_push(a@.take(i - 1), a@[i - 1]);
                    assert(a@.take(i as int) =~= a@.take(i - 1).push(a@[i - 1]));
                }
            }
            out.append("]");
            proof {
                reveal_strlit("]");
                assert(a@.take(a@.len() as int) =~= a@);
            }
        },
        JsonValue::Object(m) => {
            let ghost start = out@;
            out.append("{");
            proof {
                reveal_strlit("{");
            }
            let mut i: usize = 0;
            while i < m.len()
                invariant
                    0 <= i <= m@.len(),
                    *v == JsonValue::Object(*m),
                    out@ == start + seq!['{'] + render_entries(m@.take(i as int)),
                decreases m@.len() - i,
            {
                proof {
                    assert(decreases_to!(m@[i as int] => m@[i as int].1));
                    assert(decreases_to!(m@ => m@[i as int]));
                    assert(decreases_to!(*m => m@));
                    assert(decreases_to!(*v => (*v)->Object_0));
                }
                if i > 0 {
                    out.append(",");
                    proof {
                        reveal_strlit(",");
                    }
                }
                push_json_str(out, m[i].0.as_str());
                out.append(":");
                proof {
                    reveal_strlit(":");
                }
                push_render(out, &m[i].1);
                i = i + 1;
                proof {
                    lemma_render_entries_push(m@.take(i - 1), m@[i - 1]);
                    assert(m@.take(i as int) =~= m@.take(i - 1).push(m@[i - 1]));
                }
            }
            out.append("}");
            proof {
                reveal_strlit("}");
                assert(m@.take(m@.len() as int) =~= m@);
            }
        },
    }
}

/// Appending one item extends the item text by a comma (when not first)
/// and the item's text.
proof fn lemma_render_items_push(items: Seq<JsonValue>, x: JsonValue)
    ensures
        render_items(items.push(x)) == (if items.len() == 0 {
            render(x)
        } else {
            render_items(items) + seq![','] + render(x)
        }),
    decreases items.len(),
{
    let s = items.push(x);
    if items.len() == 0 {
    } else if items.len() == 1 {
        assert(s.subrange(1, s.len() as int) =~= seq![x]);
        assert(render_items(seq![x]) == render(x));
    } else {
        let rest = items.subrange(1, items.len() as int);
        lemma_render_items_push(rest, x);
        assert(s.subrange(1, s.len() as int) =~= rest.push(x));
        assert(s[0] == items[0]);
    }
}

/// Appending one entry extends the entry text by a comma (when not first)
/// and the entry's text.
proof fn lemma_render_entries_push(entries: Seq<(String, JsonValue)>, x: (String, JsonValue))
    ensures
        render_entries(entries.push(x)) == (if entries.len() == 0 {
            render_entry(x)
        } else {
            render_entries(entries) + seq![','] + render_entry(x)
        }),
    decreases entries.len(),
{
    let s = entries.push(x);
    if entries.len() == 0 {
        assert(s =~= seq![x]);
    } else if entries.len() == 1 {
        assert(s.subrange(1, s.len() as int) =~= seq![x]);
        assert(s[0] == entries[0]);
        assert(render_entries(seq![x]) == render_entry(x));
    } else {
        let rest = entries.subrange(1, entries.len() as int);
        lemma_render_entries_push(rest, x);
        assert(s.subrange(1, s.len() as int) =~= rest.push(x));
        assert(s[0] == entries[0]);
    }
}

impl Clone for JsonNumber {
    /// A copy of the number.
    fn clone(&self) -> (r: Self)
        ensures
            r == *self,
    {
        match self {
            JsonNumber::PosInt(u) => JsonNumber::PosInt(*u),
            JsonNumber::NegInt(i) => JsonNumber::NegInt(*i),
            JsonNumber::Float(t) => JsonNumber::Float(t.clone()),
        }
    }
}

} // verus!
