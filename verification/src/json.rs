//! The library's own model of a JSON document: a tree of plain values,
//! together with a verified serializer whose output is pinned down, character
//! by character, by the spec functions below.

use vstd::prelude::*;

verus! {

/// A JSON document as the library holds it: plain values only.  Numbers are
/// integers; fractional numbers have no counterpart here.
#[derive(Debug, PartialEq)]
pub enum JsonValue {
    Null,
    Bool(bool),
    Int(i64),
    Str(String),
    Arr(Vec<JsonValue>),
    Obj(Vec<(String, JsonValue)>),
}

/// The mathematical shape of a [`JsonValue`]: strings become sequences of
/// characters, vectors become sequences.
pub enum JsonModel {
    Null,
    Bool(bool),
    Int(int),
    Str(Seq<char>),
    Arr(Seq<JsonModel>),
    Obj(Seq<(Seq<char>, JsonModel)>),
}

impl JsonValue {
    pub open spec fn model(self) -> JsonModel
        decreases self,
    {
        match self {
            JsonValue::Null => JsonModel::Null,
            JsonValue::Bool(b) => JsonModel::Bool(b),
            JsonValue::Int(i) => JsonModel::Int(i as int),
            JsonValue::Str(s) => JsonModel::Str(s@),
            JsonValue::Arr(items) => JsonModel::Arr(
                Seq::new(
                    items@.len(),
                    |i: int|
                        if 0 <= i < items@.len() {
                            items@[i].model()
                        } else {
                            JsonModel::Null
                        },
                ),
            ),
            JsonValue::Obj(pairs) => JsonModel::Obj(pairs_model(pairs@)),
        }
    }
}

/// The model of an object's member list.
pub open spec fn pairs_model(pairs: Seq<(String, JsonValue)>) -> Seq<(Seq<char>, JsonModel)>
    decreases pairs,
{
    Seq::new(
        pairs.len(),
        |i: int|
            if 0 <= i < pairs.len() {
                (pairs[i].0@, pairs[i].1.model())
            } else {
                (Seq::empty(), JsonModel::Null)
            },
    )
}

impl View for JsonValue {
    type V = JsonModel;

    open spec fn view(&self) -> JsonModel {
        self.model()
    }
}

/// The decimal digit standing for `d`.
pub open spec fn digit_char(d: nat) -> char {
    if d == 0 {
        '0'
    } else if d == 1 {
        '1'
    } else if d == 2 {
        '2'
    } else if d == 3 {
        '3'
    } else if d == 4 {
        '4'
    } else if d == 5 {
        '5'
    } else if d == 6 {
        '6'
    } else if d == 7 {
        '7'
    } else if d == 8 {
        '8'
    } else {
        '9'
    }
}

/// The decimal digits of `n`, most significant first, no leading zeros.
pub open spec fn dec_chars(n: nat) -> Seq<char>
    decreases n,
{
    if n < 10 {
        seq![digit_char(n)]
    } else {
        dec_chars(n / 10) + seq![digit_char(n % 10)]
    }
}

/// The decimal form of `i`, with a leading minus sign when negative.
pub open spec fn int_chars(i: int) -> Seq<char> {
    if i < 0 {
        seq!['-'] + dec_chars((-i) as nat)
    } else {
        dec_chars(i as nat)
    }
}

/// What one character contributes to a JSON string literal: quotes and
/// backslashes are escaped, control characters take the `\u00XX` form (or a
/// short escape where JSON has one), everything else stands for itself.
pub open spec fn escape_char(c: char) -> Seq<char> {
    if c == '"' {
        seq!['\\', '"']
    } else if c == '\\' {
        seq!['\\', '\\']
    } else if c == '\n' {
        seq!['\\', 'n']
    } else if c == '\r' {
        seq!['\\', 'r']
    } else if c == '\t' {
        seq!['\\', 't']
    } else if (c as nat) < 32 {
        seq!['\\', 'u', '0', '0', digit_char(c as nat / 16)] + seq![
            if c as nat % 16 < 10 {
                digit_char(c as nat % 16)
            } else if c as nat % 16 == 10 {
                'a'
            } else if c as nat % 16 == 11 {
                'b'
            } else if c as nat % 16 == 12 {
                'c'
            } else if c as nat % 16 == 13 {
                'd'
            } else if c as nat % 16 == 14 {
                'e'
            } else {
                'f'
            },
        ]
    } else {
        seq![c]
    }
}

/// The body of a JSON string literal for `s` (without the quotes).
pub open spec fn escape_str(s: Seq<char>) -> Seq<char>
    decreases s.len(),
{
    if s.len() == 0 {
        Seq::empty()
    } else {
        escape_str(s.drop_last()) + escape_char(s.last())
    }
}

/// A complete JSON string literal for `s`.
pub open spec fn quoted(s: Seq<char>) -> Seq<char> {
    seq!['"'] + escape_str(s) + seq!['"']
}

/// The serialized form of a JSON value.
pub open spec fn ser(m: JsonModel) -> Seq<char>
    decreases m,
{
    match m {
        JsonModel::Null => "null"@,
        JsonModel::Bool(b) => if b {
            "true"@
        } else {
            "false"@
        },
        JsonModel::Int(i) => int_chars(i),
        JsonModel::Str(s) => quoted(s),
        JsonModel::Arr(items) => seq!['['] + ser_items(items) + seq![']'],
        JsonModel::Obj(pairs) => seq!['{'] + ser_members(pairs) + seq!['}'],
    }
}

/// Array elements, comma separated.
pub open spec fn ser_items(items: Seq<JsonModel>) -> Seq<char>
    decreases items,
{
    if items.len() == 0 {
        Seq::empty()
    } else if items.len() == 1 {
        ser(items[0])
    } else {
        ser_items(items.drop_last()) + seq![','] + ser(items.last())
    }
}

/// Object members, comma separated, each a quoted key, a colon and a value.
pub open spec fn ser_members(pairs: Seq<(Seq<char>, JsonModel)>) -> Seq<char>
    decreases pairs,
{
    if pairs.len() == 0 {
        Seq::empty()
    } else if pairs.len() == 1 {
        quoted(pairs[0].0) + seq![':'] + ser(pairs[0].1)
    } else {
        ser_members(pairs.drop_last()) + seq![','] + quoted(pairs.last().0) + seq![':'] + ser(
            pairs.last().1,
        )
    }
}

/// Appending one more character extends the escaped form by that
/// character's escape.
proof fn lemma_escape_str_snoc(s: Seq<char>, i: int)
    requires
        0 <= i < s.len(),
    ensures
        escape_str(s.take(i + 1)) == escape_str(s.take(i)) + escape_char(s[i]),
{
    let t = s.take(i + 1);
    assert(t.drop_last() =~= s.take(i));
    assert(t.last() == s[i]);
}

/// Appending one more element extends the serialized element list by a
/// comma (after the first element) and that element's form.
proof fn lemma_ser_items_snoc(s: Seq<JsonModel>, i: int)
    requires
        0 <= i < s.len(),
    ensures
        ser_items(s.take(i + 1)) == if i == 0 {
            ser(s[i])
        } else {
            ser_items(s.take(i)) + seq![','] + ser(s[i])
        },
{
    let t = s.take(i + 1);
    assert(t.drop_last() =~= s.take(i));
    assert(t.last() == s[i]);
    if i == 0 {
        assert(t[0] == s[0]);
    }
}

/// The member form of the same step for objects.
proof fn lemma_ser_members_snoc(s: Seq<(Seq<char>, JsonModel)>, i: int)
    requires
        0 <= i < s.len(),
    ensures
        ser_members(s.take(i + 1)) == if i == 0 {
            quoted(s[i].0) + seq![':'] + ser(s[i].1)
        } else {
            ser_members(s.take(i)) + seq![','] + quoted(s[i].0) + seq![':'] + ser(s[i].1)
        },
{
    let t = s.take(i + 1);
    assert(t.drop_last() =~= s.take(i));
    assert(t.last() == s[i]);
    if i == 0 {
        assert(t[0] == s[0]);
    }
}

/// The decimal digit for `d`.
fn digit(d: u64) -> (c: char)
    requires
        d < 10,
    ensures
        c == digit_char(d as nat),
{
    if d == 0 {
        '0'
    } else if d == 1 {
        '1'
    } else if d == 2 {
        '2'
    } else if d == 3 {
        '3'
    } else if d == 4 {
        '4'
    } else if d == 5 {
        '5'
    } else if d == 6 {
        '6'
    } else if d == 7 {
        '7'
    } else if d == 8 {
        '8'
    } else {
        '9'
    }
}

/// Pushes the characters of `s` onto `out`, unchanged.
#[verifier::loop_isolation(false)]
pub(crate) fn push_str_chars(s: &str, out: &mut Vec<char>)
    ensures
        final(out)@ == old(out)@ + s@,
{
    let n = s.unicode_len();
    let mut i: usize = 0;
    proof {
        assert(out@ =~= old(out)@ + s@.take(0));
    }
    while i < n
        invariant
            i <= n,
            out@ == old(out)@ + s@.take(i as int),
        decreases n - i,
    {
        let c = s.get_char(i);
        out.push(c);
        proof {
            assert(s@.take(i + 1) =~= s@.take(i as int).push(s@[i as int]));
            assert(out@ =~= old(out)@ + s@.take(i + 1));
        }
        i = i + 1;
    }
    proof {
        assert(s@.take(n as int) =~= s@);
    }
}

/// Pushes the decimal digits of `n` onto `out`.
pub(crate) fn push_dec_u64(n: u64, out: &mut Vec<char>)
    ensures
        final(out)@ == old(out)@ + dec_chars(n as nat),
    decreases n,
{
    if n < 10 {
        out.push(digit(n));
        proof {
            assert(out@ =~= old(out)@ + dec_chars(n as nat));
        }
    } else {
        push_dec_u64(n / 10, out);
        out.push(digit(n % 10));
        proof {
            assert(out@ =~= old(out)@ + dec_chars(n as nat));
        }
    }
}

/// Pushes the decimal form of `i`, with a minus sign when negative.
fn push_int_chars(i: i64, out: &mut Vec<char>)
    ensures
        final(out)@ == old(out)@ + int_chars(i as int),
{
    if i < 0 {
        out.push('-');
        let m: u64 = (-(i as i128)) as u64;
        assert(m as nat == (-(i as int)) as nat);
        push_dec_u64(m, out);
        proof {
            assert(out@ =~= old(out)@ + int_chars(i as int));
        }
    } else {
        push_dec_u64(i as u64, out);
    }
}

/// Pushes the escape of one character onto `out`.
fn push_escaped_char(c: char, out: &mut Vec<char>)
    ensures
        final(out)@ == old(out)@ + escape_char(c),
{
    if c == '"' {
        out.push('\\');
        out.push('"');
    } else if c == '\\' {
        out.push('\\');
        out.push('\\');
    } else if c == '\n' {
        out.push('\\');
        out.push('n');
    } else if c == '\r' {
        out.push('\\');
        out.push('r');
    } else if c == '\t' {
        out.push('\\');
        out.push('t');
    } else if (c as u32) < 32 {
        out.push('\\');
        out.push('u');
        out.push('0');
        out.push('0');
        out.push(digit((c as u32 / 16) as u64));
        let low: u32 = c as u32 % 16;
        if low < 10 {
            out.push(digit(low as u64));
        } else if low == 10 {
            out.push('a');
        } else if low == 11 {
            out.push('b');
        } else if low == 12 {
            out.push('c');
        } else if low == 13 {
            out.push('d');
        } else if low == 14 {
            out.push('e');
        } else {
            out.push('f');
        }
    } else {
        out.push(c);
    }
    proof {
        assert(out@ =~= old(out)@ + escape_char(c));
    }
}

/// Pushes the body of the JSON string literal for `s` onto `out`.
#[verifier::loop_isolation(false)]
pub(crate) fn push_escaped_str(s: &str, out: &mut Vec<char>)
    ensures
        final(out)@ == old(out)@ + escape_str(s@),
{
    let n = s.unicode_len();
    let mut i: usize = 0;
    proof {
        assert(out@ =~= old(out)@ + escape_str(s@.take(0)));
    }
    while i < n
        invariant
            i <= n,
            out@ == old(out)@ + escape_str(s@.take(i as int)),
        decreases n - i,
    {
        let c = s.get_char(i);
        push_escaped_char(c, out);
        proof {
            lemma_escape_str_snoc(s@, i as int);
        }
        i = i + 1;
    }
    proof {
        assert(s@.take(n as int) =~= s@);
    }
}

/// Pushes the serialized form of `v` onto `out`.
#[verifier::loop_isolation(false)]
#[verifier::rlimit(80)]
pub fn write_json(v: &JsonValue, out: &mut Vec<char>)
    ensures
        final(out)@ == old(out)@ + ser(v@),
    decreases v,
{
    match v {
        JsonValue::Null => push_str_chars("null", out),
        JsonValue::Bool(b) => {
            if *b {
                push_str_chars("true", out);
            } else {
                push_str_chars("false", out);
            }
        },
        JsonValue::Int(i) => push_int_chars(*i, out),
        JsonValue::Str(s) => {
            out.push('"');
            push_escaped_str(s.as_str(), out);
            out.push('"');
            proof {
                assert(out@ =~= old(out)@ + quoted(s@));
            }
        },
        JsonValue::Arr(items) => {
            let ghost m = (v@)->Arr_0;
            out.push('[');
            let n = items.len();
            let mut i: usize = 0;
            proof {
                assert(out@ =~= old(out)@ + seq!['['] + ser_items(m.take(0)));
            }
            while i < n
                invariant
                    i <= n,
                    out@ == old(out)@ + seq!['['] + ser_items(m.take(i as int)),
                decreases n - i,
            {
                if i > 0 {
                    out.push(',');
                }
                write_json(&items[i], out);
                proof {
                    assert(m[i as int] == items@[i as int]@);
                    lemma_ser_items_snoc(m, i as int);
                    assert(out@ =~= old(out)@ + seq!['['] + ser_items(m.take(i + 1)));
                }
                i = i + 1;
            }
            out.push(']');
            proof {
                assert(m.take(n as int) =~= m);
                assert(out@ =~= old(out)@ + ser(v@));
            }
        },
        JsonValue::Obj(pairs) => {
            out.push('{');
            write_members(pairs, out);
            out.push('}');
            proof {
                assert(out@ =~= old(out)@ + ser(v@));
            }
        },
    }
}

/// Pushes the members of an object (without the braces) onto `out`.
#[verifier::loop_isolation(false)]
#[verifier::rlimit(80)]
pub fn write_members(pairs: &Vec<(String, JsonValue)>, out: &mut Vec<char>)
    ensures
        final(out)@ == old(out)@ + ser_members(pairs_model(pairs@)),
    decreases pairs,
{
    let ghost m = pairs_model(pairs@);
    let n = pairs.len();
    let mut i: usize = 0;
    proof {
        assert(out@ =~= old(out)@ + ser_members(m.take(0)));
    }
    while i < n
        invariant
            i <= n,
            out@ == old(out)@ + ser_members(m.take(i as int)),
        decreases n - i,
    {
        if i > 0 {
            out.push(',');
        }
        out.push('"');
        push_escaped_str(pairs[i].0.as_str(), out);
        push_str_chars("\":", out);
        write_json(&pairs[i].1, out);
        proof {
            assert(m[i as int] == (pairs@[i as int].0@, pairs@[i as int].1@));
            lemma_ser_members_snoc(m, i as int);
            assert("\":"@ =~= seq!['"', ':']) by {
                reveal_strlit("\":");
            }
            assert(out@ =~= old(out)@ + ser_members(m.take(i + 1)));
        }
        i = i + 1;
    }
    proof {
        assert(m.take(n as int) =~= m);
    }
}

/// Relies on `String`'s `FromIterator<char>` impl: the string collected from
/// a character iterator holds exactly those characters, in order.
#[verifier::external_body]
pub(crate) fn chars_into_string(chars: Vec<char>) -> (r: String)
    ensures
        r@ == chars@,
{
    chars.into_iter().collect()
}

/// Serializes `v` as a JSON document.
pub fn to_json_string(v: &JsonValue) -> (r: String)
    ensures
        r@ == ser(v@),
{
    let mut out: Vec<char> = Vec::new();
    write_json(v, &mut out);
    proof {
        assert(out@ =~= ser(v@));
    }
    chars_into_string(out)
}

} // verus!
