//! The compact JSON text of a document: no whitespace between tokens,
//! object members in order, and strings escaped as JSON requires (quote,
//! backslash and control characters; the common ones by their short forms,
//! the others as `\u00XX` with lower-case hex digits).

use vstd::prelude::*;
use crate::json::{Json, JsonValue, fields_view, items_view, lemma_array_view, lemma_object_view};

verus! {

/// The lower-case hex digit of a number below 16.
pub open spec fn hex_digit(d: nat) -> char {
    if d < 10 {
        ((48 + d) as u32) as char
    } else {
        ((87 + d) as u32) as char
    }
}

/// The escaped form of one character inside a JSON string.
pub open spec fn escape_char(c: char) -> Seq<char> {
    if c == '"' {
        seq!['\\', '"']
    } else if c == '\\' {
        seq!['\\', '\\']
    } else if c == '\n' {
        seq!['\\', 'n']
    } else if c == '\r' {
        seq!['\\', 'r']
    } else if c == '\t' {
        seq!['\\', 't']
    } else if (c as u32) == 8 {
        seq!['\\', 'b']
    } else if (c as u32) == 12 {
        seq!['\\', 'f']
    } else if (c as u32) < 32 {
        seq!['\\', 'u', '0', '0', hex_digit((c as u32 / 16) as nat), hex_digit((c as u32 % 16) as nat)]
    } else {
        seq![c]
    }
}

/// The escaped form of a string's characters.
pub open spec fn escaped(s: Seq<char>) -> Seq<char>
    decreases s.len(),
{
    if s.len() == 0 {
        Seq::empty()
    } else {
        escaped(s.drop_last()) + escape_char(s.last())
    }
}

/// The JSON text of a string.
pub open spec fn string_text(s: Seq<char>) -> Seq<char> {
    seq!['"'] + escaped(s) + seq!['"']
}

/// The compact JSON text of a document.
pub open spec fn json_text(j: Json) -> Seq<char>
    decreases j, 1int,
{
    match j {
        Json::Null => "null"@,
        Json::Bool(b) => if b {
            "true"@
        } else {
            "false"@
        },
        Json::Number(n) => n,
        Json::Str(s) => string_text(s),
        Json::Array(items) => seq!['['] + items_text(items) + seq![']'],
        Json::Object(fields) => seq!['{'] + fields_text(fields) + seq!['}'],
    }
}

/// The texts of array items, separated by commas.
pub open spec fn items_text(items: Seq<Json>) -> Seq<char>
    decreases items, 0int,
{
    if items.len() == 0 {
        Seq::empty()
    } else if items.len() == 1 {
        json_text(items[0])
    } else {
        items_text(items.drop_last()) + seq![','] + json_text(items.last())
    }
}

/// The texts of object members, `"key":value`, separated by commas.
pub open spec fn fields_text(fields: Seq<(Seq<char>, Json)>) -> Seq<char>
    decreases fields, 0int,
{
    if fields.len() == 0 {
        Seq::empty()
    } else if fields.len() == 1 {
        string_text(fields[0].0) + seq![':'] + json_text(fields[0].1)
    } else {
        fields_text(fields.drop_last()) + seq![','] + string_text(fields.last().0) + seq![':'] + json_text(
            fields.last().1,
        )
    }
}

fn hex_str(d: u32) -> (r: &'static str)
    requires
        d < 16,
    ensures
        r@ == seq![hex_digit(d as nat)],
{
    proof {
        reveal_strlit("0");
        reveal_strlit("1");
        reveal_strlit("2");
        reveal_strlit("3");
        reveal_strlit("4");
        reveal_strlit("5");
        reveal_strlit("6");
        reveal_strlit("7");
        reveal_strlit("8");
        reveal_strlit("9");
        reveal_strlit("a");
        reveal_strlit("b");
        reveal_strlit("c");
        reveal_strlit("d");
        reveal_strlit("e");
        reveal_strlit("f");
    }
    match d {
        0 => "0",
        1 => "1",
        2 => "2",
        3 => "3",
        4 => "4",
        5 => "5",
        6 => "6",
        7 => "7",
        8 => "8",
        9 => "9",
        10 => "a",
        11 => "b",
        12 => "c",
        13 => "d",
        14 => "e",
        _ => "f",
    }
}

/// Appends the escaped form of the `i`-th character of `s` to `out`.
fn push_escaped(out: &mut String, s: &str, i: usize)
    requires
        i < s@.len(),
        s@.len() <= usize::MAX,
    ensures
        final(out)@ == old(out)@ + escape_char(s@[i as int]),
{
    let c = s.get_char(i);
    proof {
        reveal_strlit("\\\"");
        reveal_strlit("\\\\");
        reveal_strlit("\\n");
        reveal_strlit("\\r");
        reveal_strlit("\\t");
        reveal_strlit("\\b");
        reveal_strlit("\\f");
        reveal_strlit("\\u00");
    }
    if c == '"' {
        out.append("\\\"");
    } else if c == '\\' {
        out.append("\\\\");
    } else if c == '\n' {
        out.append("\\n");
    } else if c == '\r' {
        out.append("\\r");
    } else if c == '\t' {
        out.append("\\t");
    } else if (c as u32) == 8 {
        out.append("\\b");
    } else if (c as u32) == 12 {
        out.append("\\f");
    } else if (c as u32) < 32 {
        let code = c as u32;
        out.append("\\u00");
        out.append(hex_str(code / 16));
        out.append(hex_str(code % 16));
    } else {
        out.append(s.substring_char(i, i + 1));
    }
}

/// Appends the JSON text of a string to `out`.
fn push_string_text(out: &mut String, s: &str)
    ensures
        final(out)@ == old(out)@ + string_text(s@),
{
    proof {
        reveal_strlit("\"");
    }
    out.append("\"");
    let n = s.unicode_len();
    let mut i: usize = 0;
    let ghost start = out@;
    while i < n
        invariant
            n == s@.len(),
            i <= n,
            out@ == start + escaped(s@.take(i as int)),
        decreases n - i,
    {
        assert(s@.take(i + 1).drop_last() =~= s@.take(i as int));
        push_escaped(out, s, i);
        assert(out@ =~= start + escaped(s@.take(i + 1)));
        i = i + 1;
    }
    assert(s@.take(n as int) =~= s@);
    out.append("\"");
}

/// Appends the compact JSON text of `v` to `out`.
#[verifier::loop_isolation(false)]
fn push_json_text(out: &mut String, v: &JsonValue)
    ensures
        final(out)@ == old(out)@ + json_text(v@),
    decreases v,
{
    proof {
        reveal_strlit("null");
        reveal_strlit("true");
        reveal_strlit("false");
        reveal_strlit("[");
        reveal_strlit("]");
        reveal_strlit("{");
        reveal_strlit("}");
        reveal_strlit(",");
        reveal_strlit(":");
    }
    match v {
        JsonValue::Null => out.append("null"),
        JsonValue::Bool(b) => if *b {
            out.append("true")
        } else {
            out.append("false")
        },
        JsonValue::Number(n) => out.append(n.as_str()),
        JsonValue::Str(s) => push_string_text(out, s.as_str()),
        JsonValue::Array(items) => {
            proof {
                lemma_array_view(*items);
            }
            let ghost iv = items_view(items@);
            let ghost start = out@;
            out.append("[");
            let mut i: usize = 0;
            while i < items.len()
                invariant
                    iv == items_view(items@),
                    i <= items@.len(),
                    out@ == start + seq!['['] + items_text(iv.take(i as int)),
                decreases items@.len() - i,
            {
                assert(iv.take(i + 1).drop_last() =~= iv.take(i as int));
                let ghost before = out@;
                if i > 0 {
                    out.append(",");
                }
                let ghost mid = out@;
                push_json_text(out, &items[i]);
                proof {
                    let t = iv.take(i + 1);
                    assert(iv[i as int] == items@[i as int]@);
                    assert(t.last() == iv[i as int]);
                    if i == 0 {
                        assert(t.len() == 1);
                        assert(t[0] == iv[0]);
                        assert(before == start + seq!['[']) by {
                            assert(iv.take(0) =~= Seq::<Json>::empty());
                        }
                        assert(out@ =~= start + seq!['['] + items_text(t));
                    } else {
                        assert(mid == before + seq![',']);
                        assert(out@ =~= start + seq!['['] + items_text(t));
                    }
                }
                i = i + 1;
            }
            assert(iv.take(items@.len() as int) =~= iv);
            out.append("]");
        },
        JsonValue::Object(fields) => {
            proof {
                lemma_object_view(*fields);
            }
            let ghost fv = fields_view(fields@);
            let ghost start = out@;
            out.append("{");
            let mut i: usize = 0;
            while i < fields.len()
                invariant
                    fv == fields_view(fields@),
                    i <= fields@.len(),
                    out@ == start + seq!['{'] + fields_text(fv.take(i as int)),
                decreases fields@.len() - i,
            {
                assert(fv.take(i + 1).drop_last() =~= fv.take(i as int));
                let ghost before = out@;
                if i > 0 {
                    out.append(",");
                }
                let ghost mid = out@;
                push_string_text(out, fields[i].0.as_str());
                out.append(":");
                push_json_text(out, &fields[i].1);
                proof {
                    let t = fv.take(i + 1);
                    assert(fv[i as int] == (fields@[i as int].0@, fields@[i as int].1@));
                    assert(t.last() == fv[i as int]);
                    if i == 0 {
                        assert(t.len() == 1);
                        assert(t[0] == fv[0]);
                        assert(before == start + seq!['{']) by {
                            assert(fv.take(0) =~= Seq::<(Seq<char>, Json)>::empty());
                        }
                        assert(out@ =~= start + seq!['{'] + fields_text(t));
                    } else {
                        assert(mid == before + seq![',']);
                        assert(out@ =~= start + seq!['{'] + fields_text(t));
                    }
                }
                i = i + 1;
            }
            assert(fv.take(fields@.len() as int) =~= fv);
            out.append("}");
        },
    }
}

impl JsonValue {
    /// The compact JSON text of this value.
    pub fn to_json_string(&self) -> (r: String)
        ensures
            r@ == json_text(self@),
    {
        let mut out = String::new();
        push_json_text(&mut out, self);
        out
    }
}

} // verus!
