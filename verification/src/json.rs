//! The JSON form of the archive's records, at the specification level: a
//! document tree, a canonical serializer, and a strict parser that accepts
//! exactly what the serializer writes. The round trip is proved in
//! `json_laws`.
use vstd::prelude::*;

use crate::num::{dec_i, digit_char, is_digit, val_digits};

verus! {

/// A JSON document: the mathematical shape of a stored record.
pub enum JsonV {
    Null,
    Bool(bool),
    Int(int),
    Str(Seq<char>),
    Arr(Seq<JsonV>),
    Obj(Seq<(Seq<char>, JsonV)>),
}

/// Well-formed documents: every integer fits a 64-bit signed value.
pub open spec fn wf_json(j: JsonV) -> bool
    decreases j,
{
    match j {
        JsonV::Null => true,
        JsonV::Bool(_) => true,
        JsonV::Int(n) => i64::MIN <= n <= i64::MAX,
        JsonV::Str(_) => true,
        JsonV::Arr(vs) => wf_json_arr(vs),
        JsonV::Obj(fs) => wf_json_obj(fs),
    }
}

/// Well-formedness of a list of elements.
pub open spec fn wf_json_arr(vs: Seq<JsonV>) -> bool
    decreases vs,
{
    vs.len() == 0 || (wf_json(vs[0]) && wf_json_arr(vs.skip(1)))
}

/// Well-formedness of a list of fields.
pub open spec fn wf_json_obj(fs: Seq<(Seq<char>, JsonV)>) -> bool
    decreases fs,
{
    fs.len() == 0 || (wf_json(fs[0].1) && wf_json_obj(fs.skip(1)))
}

/// The escape of one character inside a string literal.
pub open spec fn esc_char(c: char) -> Seq<char> {
    if c == '"' {
        seq!['\\', '"']
    } else if c == '\\' {
        seq!['\\', '\\']
    } else if c == '\n' {
        seq!['\\', 'n']
    } else if c == '\r' {
        seq!['\\', 'r']
    } else if c == '\t' {
        seq!['\\', 't']
    } else {
        seq![c]
    }
}

/// The escaped body of a string literal.
pub open spec fn esc_str(s: Seq<char>) -> Seq<char>
    decreases s.len(),
{
    if s.len() == 0 {
        Seq::empty()
    } else {
        esc_char(s[0]) + esc_str(s.skip(1))
    }
}

/// Canonical serialization of a document: no whitespace, all fields written.
pub open spec fn ser_json(j: JsonV) -> Seq<char>
    decreases j, 0nat,
{
    match j {
        JsonV::Null => seq!['n', 'u', 'l', 'l'],
        JsonV::Bool(b) => if b {
            seq!['t', 'r', 'u', 'e']
        } else {
            seq!['f', 'a', 'l', 's', 'e']
        },
        JsonV::Int(n) => dec_i(n),
        JsonV::Str(s) => seq!['"'] + esc_str(s) + seq!['"'],
        JsonV::Arr(vs) => seq!['['] + ser_json_arr(vs) + seq![']'],
        JsonV::Obj(fs) => seq!['{'] + ser_json_obj(fs) + seq!['}'],
    }
}

/// Serialization of array elements, comma-separated.
pub open spec fn ser_json_arr(vs: Seq<JsonV>) -> Seq<char>
    decreases vs, 1nat,
{
    if vs.len() == 0 {
        Seq::empty()
    } else if vs.len() == 1 {
        ser_json(vs[0])
    } else {
        ser_json(vs[0]) + seq![','] + ser_json_arr(vs.skip(1))
    }
}

/// Serialization of object fields, comma-separated.
pub open spec fn ser_json_obj(fs: Seq<(Seq<char>, JsonV)>) -> Seq<char>
    decreases fs, 1nat,
{
    if fs.len() == 0 {
        Seq::empty()
    } else {
        let head = seq!['"'] + esc_str(fs[0].0) + seq!['"', ':'] + ser_json(fs[0].1);
        if fs.len() == 1 {
            head
        } else {
            head + seq![','] + ser_json_obj(fs.skip(1))
        }
    }
}

/// The end of the digit run beginning at `i`.
pub open spec fn scan_digits(s: Seq<char>, i: int) -> int
    decreases s.len() - i,
{
    if i < s.len() && is_digit(s[i]) {
        scan_digits(s, i + 1)
    } else {
        i
    }
}

/// Parses an integer literal at `i`: an optional minus sign, then a digit
/// run without a leading zero, valued within the 64-bit signed range.
pub open spec fn parse_int_v(s: Seq<char>, i: int) -> Option<(JsonV, int)> {
    let neg = i < s.len() && s[i] == '-';
    let st = if neg {
        i + 1
    } else {
        i
    };
    let end = scan_digits(s, st);
    if !(st < end <= s.len()) {
        None
    } else if s[st] == digit_char(0) && end > st + 1 {
        None
    } else {
        let m = val_digits(s.subrange(st, end));
        if neg {
            if 1 <= m <= 0x8000_0000_0000_0000 {
                Some((JsonV::Int(-(m as int)), end))
            } else {
                None
            }
        } else {
            if m <= 0x7fff_ffff_ffff_ffff {
                Some((JsonV::Int(m as int), end))
            } else {
                None
            }
        }
    }
}

/// Parses a string body at `i` (after the opening quote), up to and past the
/// closing quote, undoing the escapes.
pub open spec fn parse_str_v(s: Seq<char>, i: int) -> Option<(Seq<char>, int)>
    decreases s.len() - i,
{
    if i >= s.len() {
        None
    } else if s[i] == '"' {
        Some((Seq::empty(), i + 1))
    } else if s[i] == '\\' {
        if i + 1 >= s.len() {
            None
        } else {
            let e = s[i + 1];
            if e == '"' || e == '\\' || e == 'n' || e == 'r' || e == 't' {
                let u = if e == '"' {
                    '"'
                } else if e == '\\' {
                    '\\'
                } else if e == 'n' {
                    '\n'
                } else if e == 'r' {
                    '\r'
                } else {
                    '\t'
                };
                match parse_str_v(s, i + 2) {
                    Some((r, n)) => Some((seq![u] + r, n)),
                    None => None,
                }
            } else {
                None
            }
        }
    } else {
        match parse_str_v(s, i + 1) {
            Some((r, n)) => Some((seq![s[i]] + r, n)),
            None => None,
        }
    }
}

/// Parses one value at `i`.
pub open spec fn parse_value_v(s: Seq<char>, i: int) -> Option<(JsonV, int)>
    decreases s.len() - i, 0nat,
{
    if i < 0 || i >= s.len() {
        None
    } else if s[i] == 'n' {
        if i + 4 <= s.len() && s.subrange(i, i + 4) == seq!['n', 'u', 'l', 'l'] {
            Some((JsonV::Null, i + 4))
        } else {
            None
        }
    } else if s[i] == 't' {
        if i + 4 <= s.len() && s.subrange(i, i + 4) == seq!['t', 'r', 'u', 'e'] {
            Some((JsonV::Bool(true), i + 4))
        } else {
            None
        }
    } else if s[i] == 'f' {
        if i + 5 <= s.len() && s.subrange(i, i + 5) == seq!['f', 'a', 'l', 's', 'e'] {
            Some((JsonV::Bool(false), i + 5))
        } else {
            None
        }
    } else if s[i] == '"' {
        match parse_str_v(s, i + 1) {
            Some((r, n)) => Some((JsonV::Str(r), n)),
            None => None,
        }
    } else if s[i] == '[' {
        if i + 1 < s.len() && s[i + 1] == ']' {
            Some((JsonV::Arr(Seq::empty()), i + 2))
        } else {
            match parse_arr_items_v(s, i + 1) {
                Some((vs, n)) => Some((JsonV::Arr(vs), n)),
                None => None,
            }
        }
    } else if s[i] == '{' {
        if i + 1 < s.len() && s[i + 1] == '}' {
            Some((JsonV::Obj(Seq::empty()), i + 2))
        } else {
            match parse_obj_items_v(s, i + 1) {
                Some((fs, n)) => Some((JsonV::Obj(fs), n)),
                None => None,
            }
        }
    } else if s[i] == '-' || is_digit(s[i]) {
        parse_int_v(s, i)
    } else {
        None
    }
}

/// Parses `value (',' value)* ']'` starting at `i`, returning the elements
/// and the index just past the closing bracket.
pub open spec fn parse_arr_items_v(s: Seq<char>, i: int) -> Option<(Seq<JsonV>, int)>
    decreases s.len() - i, 1nat,
{
    if i < 0 {
        None
    } else {
        match parse_value_v(s, i) {
            None => None,
            Some((v, n)) => if !(i < n < s.len()) {
                None
            } else if s[n] == ']' {
                Some((seq![v], n + 1))
            } else if s[n] == ',' {
                match parse_arr_items_v(s, n + 1) {
                    Some((vs, n2)) => Some((seq![v] + vs, n2)),
                    None => None,
                }
            } else {
                None
            },
        }
    }
}

/// Parses `'"' key '"' ':' value (',' ...)* '}'` starting at `i`, returning
/// the fields and the index just past the closing brace.
pub open spec fn parse_obj_items_v(s: Seq<char>, i: int) -> Option<(Seq<(Seq<char>, JsonV)>, int)>
    decreases s.len() - i, 1nat,
{
    if !(0 <= i < s.len() && s[i] == '"') {
        None
    } else {
        match parse_str_v(s, i + 1) {
            None => None,
            Some((k, n1)) => if !(i + 1 < n1 < s.len()) {
                None
            } else if s[n1] != ':' {
                None
            } else {
                match parse_value_v(s, n1 + 1) {
                    None => None,
                    Some((v, n2)) => if !(n1 + 1 <= n2 < s.len()) {
                        None
                    } else if s[n2] == '}' {
                        Some((seq![(k, v)], n2 + 1))
                    } else if s[n2] == ',' {
                        match parse_obj_items_v(s, n2 + 1) {
                            Some((fs, n3)) => Some((seq![(k, v)] + fs, n3)),
                            None => None,
                        }
                    } else {
                        None
                    },
                }
            },
        }
    }
}

/// Parses a whole text as one document: one value spanning the entire input.
pub open spec fn parse_json(s: Seq<char>) -> Option<JsonV> {
    match parse_value_v(s, 0) {
        Some((j, n)) => if n == s.len() {
            Some(j)
        } else {
            None
        },
        None => None,
    }
}


/// Every serialized document is nonempty.
pub proof fn lemma_ser_json_nonempty(j: JsonV)
    ensures
        ser_json(j).len() >= 1,
{
    match j {
        JsonV::Int(n) => {
            crate::num::lemma_dec_i_first_char(n);
        },
        _ => {},
    }
}

/// Pointwise reading of an established subrange equation.
proof fn lemma_subrange_index(s: Seq<char>, i: int, e: Seq<char>)
    requires
        0 <= i,
        i + e.len() <= s.len(),
        s.subrange(i, i + e.len() as int) == e,
    ensures
        forall|k: int| 0 <= k < e.len() ==> s[i + k] == #[trigger] e[k],
{
    assert forall|k: int| 0 <= k < e.len() implies s[i + k] == #[trigger] e[k] by {
        assert(s.subrange(i, i + e.len() as int)[k] == e[k]);
    }
}

/// A digit run bounded by a non-digit scans exactly to its end.
proof fn lemma_scan_digits_stops(s: Seq<char>, i: int, e: int)
    requires
        0 <= i <= e <= s.len(),
        forall|j: int| i <= j < e ==> is_digit(#[trigger] s[j]),
        e == s.len() || !is_digit(s[e]),
    ensures
        scan_digits(s, i) == e,
    decreases e - i,
{
    if i < e {
        lemma_scan_digits_stops(s, i + 1, e);
    }
}

/// The strict integer parser reads back what `dec_i` wrote, for any value
/// that fits a 64-bit signed integer.
pub proof fn lemma_parse_int_of_dec(n: int, s: Seq<char>, i: int)
    requires
        i64::MIN <= n <= i64::MAX,
        0 <= i,
        i + dec_i(n).len() <= s.len(),
        s.subrange(i, i + dec_i(n).len() as int) == dec_i(n),
        i + dec_i(n).len() == s.len() || !is_digit(s[i + dec_i(n).len()]),
    ensures
        parse_int_v(s, i) == Some((JsonV::Int(n), i + dec_i(n).len())),
{
    let d = dec_i(n);
    let len = d.len() as int;
    lemma_subrange_index(s, i, d);
    crate::num::lemma_dec_i_first_char(n);
    if n >= 0 {
        crate::num::lemma_dec_u_digits(n as nat);
        assert(s[i] == d[0]) by {
            assert(s[i + 0] == d[0]);
        }
        assert(s[i] != '-') by {
            assert('-' as u32 == 45);
        }
        assert forall|j: int| i <= j < i + len implies is_digit(#[trigger] s[j]) by {
            assert(s[i + (j - i)] == d[j - i]);
            assert(is_digit(d[j - i]));
        }
        lemma_scan_digits_stops(s, i, i + len);
        assert(s.subrange(i, i + len) =~= d);
        crate::num::lemma_val_dec_u(n as nat);
        if s[i] == digit_char(0) && i + len > i + 1 {
            crate::num::lemma_dec_u_no_leading_zero(n as nat);
            if n == 0 {
                assert(d =~= crate::num::dec_u(0));
                assert(len == 1);
            }
            assert(false);
        }
    } else {
        crate::num::lemma_dec_u_digits((-n) as nat);
        assert(d[0] == '-');
        assert(s[i] == '-') by {
            assert(s[i + 0] == d[0]);
        }
        let st = i + 1;
        assert(d.skip(1) =~= crate::num::dec_u((-n) as nat));
        assert forall|j: int| st <= j < i + len implies is_digit(#[trigger] s[j]) by {
            assert(s[i + (j - i)] == d[j - i]);
            assert(d[j - i] == d.skip(1)[j - i - 1]);
            assert(is_digit(d.skip(1)[j - i - 1]));
        }
        lemma_scan_digits_stops(s, st, i + len);
        assert(s.subrange(st, i + len) =~= d.skip(1)) by {
            assert forall|k: int| 0 <= k < len - 1 implies s.subrange(st, i + len)[k] == d.skip(
                1,
            )[k] by {
                assert(s[i + (k + 1)] == d[k + 1]);
            }
        }
        crate::num::lemma_val_dec_u((-n) as nat);
        if s[st] == digit_char(0) && i + len > st + 1 {
            crate::num::lemma_dec_u_no_leading_zero((-n) as nat);
            assert(s[i + 1] == d[1]);
            assert(d[1] == d.skip(1)[0]);
            assert(false);
        }
        assert(1 <= (-n) as nat <= 0x8000_0000_0000_0000);
    }
}

/// The string parser reads back what the escaper wrote.
pub proof fn lemma_parse_str_of_esc(t: Seq<char>, s: Seq<char>, i: int)
    requires
        0 <= i,
        i + esc_str(t).len() + 1 <= s.len(),
        s.subrange(i, i + esc_str(t).len() + 1) == esc_str(t) + seq!['"'],
    ensures
        parse_str_v(s, i) == Some((t, i + esc_str(t).len() + 1)),
    decreases t.len(),
{
    let e = esc_str(t);
    let eq = e + seq!['"'];
    lemma_subrange_index(s, i, eq);
    if t.len() == 0 {
        assert(s[i] == '"') by {
            assert(s[i + 0] == eq[0]);
            assert(eq[0] == '"');
        }
    } else {
        let c = t[0];
        let rest = t.skip(1);
        let er = esc_str(rest);
        assert(e =~= esc_char(c) + er);
        if c == '"' || c == '\\' || c == '\n' || c == '\r' || c == '\t' {
            assert(esc_char(c).len() == 2);
            assert(esc_char(c)[0] == '\\');
            assert(s[i] == '\\') by {
                assert(s[i + 0] == eq[0]);
                assert(eq[0] == e[0]);
                assert(e[0] == esc_char(c)[0]);
            }
            assert(s[i] != '"') by {
                assert('"' as u32 == 34);
                assert('\\' as u32 == 92);
            }
            let code = esc_char(c)[1];
            assert(s[i + 1] == code) by {
                assert(s[i + 1] == eq[1]);
                assert(eq[1] == e[1]);
                assert(e[1] == esc_char(c)[1]);
            }
            assert(code == '"' || code == '\\' || code == 'n' || code == 'r' || code == 't');
            assert(s.subrange(i + 2, i + 2 + er.len() + 1) =~= er + seq!['"']) by {
                assert forall|k: int| 0 <= k < er.len() + 1 implies s.subrange(
                    i + 2,
                    i + 2 + er.len() + 1,
                )[k] == (er + seq!['"'])[k] by {
                    assert(s[i + (k + 2)] == eq[k + 2]);
                    assert(eq[k + 2] == (er + seq!['"'])[k]);
                }
            }
            lemma_parse_str_of_esc(rest, s, i + 2);
            assert(seq![c] + rest =~= t);
            assert(2 + er.len() == e.len());
            // the decoded character equals c for each escape code
            assert(parse_str_v(s, i) == Some((t, i + e.len() + 1)));
        } else {
            assert(esc_char(c) =~= seq![c]);
            assert(s[i] == c) by {
                assert(s[i + 0] == eq[0]);
                assert(eq[0] == e[0]);
                assert(e[0] == esc_char(c)[0]);
            }
            assert(s[i] != '"' && s[i] != '\\');
            assert(s.subrange(i + 1, i + 1 + er.len() + 1) =~= er + seq!['"']) by {
                assert forall|k: int| 0 <= k < er.len() + 1 implies s.subrange(
                    i + 1,
                    i + 1 + er.len() + 1,
                )[k] == (er + seq!['"'])[k] by {
                    assert(s[i + (k + 1)] == eq[k + 1]);
                    assert(eq[k + 1] == (er + seq!['"'])[k]);
                }
            }
            lemma_parse_str_of_esc(rest, s, i + 1);
            assert(seq![c] + rest =~= t);
            assert(1 + er.len() == e.len());
        }
    }
}

/// No serialized value starts with a closing bracket, a closing brace or a
/// comma, and the starting characters listed here tell the variants apart.
proof fn lemma_ser_json_first_not(j: JsonV)
    ensures
        ser_json(j)[0] != ']',
        ser_json(j)[0] != '}',
        ser_json(j)[0] != ',',
{
    assert(']' as u32 == 93 && '}' as u32 == 125 && ',' as u32 == 44);
    assert('n' as u32 == 110 && 't' as u32 == 116 && 'f' as u32 == 102 && '"' as u32 == 34
        && '[' as u32 == 91 && '{' as u32 == 123 && '-' as u32 == 45);
    match j {
        JsonV::Int(n) => {
            crate::num::lemma_dec_i_first_char(n);
            if n >= 0 {
                assert(is_digit(ser_json(j)[0]));
            } else {
                assert(ser_json(j)[0] == '-');
            }
        },
        JsonV::Null => {
            assert(ser_json(j)[0] == 'n');
        },
        JsonV::Bool(b) => {
            if b {
                assert(ser_json(j)[0] == 't');
            } else {
                assert(ser_json(j)[0] == 'f');
            }
        },
        JsonV::Str(t) => {
            assert(ser_json(j)[0] == '"');
        },
        JsonV::Arr(vs) => {
            assert(ser_json(j)[0] == '[');
        },
        JsonV::Obj(fs) => {
            assert(ser_json(j)[0] == '{');
        },
    }
}

/// The strict parser reads back what the serializer wrote: one value, ending
/// exactly at the end of its text, provided no digit follows directly.
pub proof fn lemma_parse_ser(j: JsonV, s: Seq<char>, i: int)
    requires
        wf_json(j),
        0 <= i,
        i + ser_json(j).len() <= s.len(),
        s.subrange(i, i + ser_json(j).len() as int) == ser_json(j),
        i + ser_json(j).len() == s.len() || !is_digit(s[i + ser_json(j).len()]),
    ensures
        parse_value_v(s, i) == Some((j, i + ser_json(j).len())),
    decreases j, 0nat,
{
    let e = ser_json(j);
    let len = e.len() as int;
    lemma_ser_json_nonempty(j);
    lemma_subrange_index(s, i, e);
    assert('n' as u32 == 110 && 't' as u32 == 116 && 'f' as u32 == 102 && '"' as u32 == 34
        && '[' as u32 == 91 && '{' as u32 == 123 && '-' as u32 == 45 && ']' as u32 == 93
        && '}' as u32 == 125 && ',' as u32 == 44);
    match j {
        JsonV::Null => {
            assert(s[i] == 'n') by {
                assert(s[i + 0] == e[0]);
            }
            assert(s.subrange(i, i + 4) =~= seq!['n', 'u', 'l', 'l']);
            assert(parse_value_v(s, i) == Some((j, i + ser_json(j).len())));
        },
        JsonV::Bool(b) => {
            if b {
                assert(s[i] == 't') by {
                    assert(s[i + 0] == e[0]);
                }
                assert(s.subrange(i, i + 4) =~= seq!['t', 'r', 'u', 'e']);
            } else {
                assert(s[i] == 'f') by {
                    assert(s[i + 0] == e[0]);
                }
                assert(s.subrange(i, i + 5) =~= seq!['f', 'a', 'l', 's', 'e']);
            }
            assert(parse_value_v(s, i) == Some((j, i + ser_json(j).len())));
        },
        JsonV::Int(n) => {
            crate::num::lemma_dec_i_first_char(n);
            assert(s[i] == e[0]) by {
                assert(s[i + 0] == e[0]);
            }
            assert(s[i] == '-' || is_digit(s[i]));
            lemma_parse_int_of_dec(n, s, i);
            assert(parse_value_v(s, i) == Some((j, i + ser_json(j).len())));
        },
        JsonV::Str(t) => {
            let et = esc_str(t);
            assert(e =~= seq!['"'] + et + seq!['"']);
            assert(s[i] == '"') by {
                assert(s[i + 0] == e[0]);
                assert(e[0] == '"');
            }
            assert(s.subrange(i + 1, i + 1 + et.len() + 1) =~= et + seq!['"']) by {
                assert forall|k: int| 0 <= k < et.len() + 1 implies s.subrange(
                    i + 1,
                    i + 1 + et.len() + 1,
                )[k] == (et + seq!['"'])[k] by {
                    assert(s[i + (k + 1)] == e[k + 1]);
                    assert(e[k + 1] == (et + seq!['"'])[k]);
                }
            }
            lemma_parse_str_of_esc(t, s, i + 1);
            assert(parse_value_v(s, i) == Some((j, i + ser_json(j).len())));
        },
        JsonV::Arr(vs) => {
            assert(s[i] == '[') by {
                assert(s[i + 0] == e[0]);
                assert(e[0] == '[');
            }
            if vs.len() == 0 {
                assert(vs =~= Seq::<JsonV>::empty());
                assert(e =~= seq!['[', ']']);
                assert(s[i + 1] == ']') by {
                    assert(s[i + 1] == e[1]);
                    assert(e[1] == ']');
                }
            } else {
                let body = ser_json_arr(vs);
                assert(e =~= seq!['['] + body + seq![']']);
                lemma_ser_json_nonempty(vs[0]);
                assert(body[0] == ser_json(vs[0])[0]);
                lemma_ser_json_first_not(vs[0]);
                assert(s[i + 1] != ']') by {
                    assert(s[i + 1] == e[1]);
                    assert(e[1] == body[0]);
                }
                assert(s.subrange(i + 1, i + 1 + body.len()) =~= body) by {
                    assert forall|k: int| 0 <= k < body.len() implies s.subrange(
                        i + 1,
                        i + 1 + body.len(),
                    )[k] == body[k] by {
                        assert(s[i + (k + 1)] == e[k + 1]);
                        assert(e[k + 1] == body[k]);
                    }
                }
                assert(s[i + 1 + body.len()] == ']') by {
                    assert(s[i + (1 + body.len())] == e[1 + body.len() as int]);
                    assert(e[1 + body.len() as int] == ']');
                }
                lemma_parse_ser_arr(vs, s, i + 1);
            }
            assert(parse_value_v(s, i) == Some((j, i + ser_json(j).len())));
        },
        JsonV::Obj(fs) => {
            assert(s[i] == '{') by {
                assert(s[i + 0] == e[0]);
                assert(e[0] == '{');
            }
            if fs.len() == 0 {
                assert(fs =~= Seq::<(Seq<char>, JsonV)>::empty());
                assert(e =~= seq!['{', '}']);
                assert(s[i + 1] == '}') by {
                    assert(s[i + 1] == e[1]);
                    assert(e[1] == '}');
                }
            } else {
                let body = ser_json_obj(fs);
                assert(e =~= seq!['{'] + body + seq!['}']);
                assert(body[0] == '"');
                assert(s[i + 1] != '}') by {
                    assert(s[i + 1] == e[1]);
                    assert(e[1] == body[0]);
                }
                assert(s.subrange(i + 1, i + 1 + body.len()) =~= body) by {
                    assert forall|k: int| 0 <= k < body.len() implies s.subrange(
                        i + 1,
                        i + 1 + body.len(),
                    )[k] == body[k] by {
                        assert(s[i + (k + 1)] == e[k + 1]);
                        assert(e[k + 1] == body[k]);
                    }
                }
                assert(s[i + 1 + body.len()] == '}') by {
                    assert(s[i + (1 + body.len())] == e[1 + body.len() as int]);
                    assert(e[1 + body.len() as int] == '}');
                }
                lemma_parse_ser_obj(fs, s, i + 1);
            }
            assert(parse_value_v(s, i) == Some((j, i + ser_json(j).len())));
        },
    }
}

/// The item parser reads back a nonempty element list that the serializer
/// wrote, consuming the closing bracket.
proof fn lemma_parse_ser_arr(vs: Seq<JsonV>, s: Seq<char>, i: int)
    requires
        vs.len() >= 1,
        wf_json_arr(vs),
        0 <= i,
        i + ser_json_arr(vs).len() + 1 <= s.len(),
        s.subrange(i, i + ser_json_arr(vs).len() as int) == ser_json_arr(vs),
        s[i + ser_json_arr(vs).len()] == ']',
    ensures
        parse_arr_items_v(s, i) == Some((vs, i + ser_json_arr(vs).len() + 1)),
    decreases vs, 1nat,
{
    let body = ser_json_arr(vs);
    let e0 = ser_json(vs[0]);
    lemma_ser_json_nonempty(vs[0]);
    lemma_subrange_index(s, i, body);
    assert(']' as u32 == 93 && ',' as u32 == 44);
    if vs.len() == 1 {
        assert(body =~= e0);
        lemma_parse_ser(vs[0], s, i);
        assert(seq![vs[0]] =~= vs);
    } else {
        let rest = vs.skip(1);
        let rbody = ser_json_arr(rest);
        assert(body =~= e0 + seq![','] + rbody);
        assert(s.subrange(i, i + e0.len()) =~= e0) by {
            assert forall|k: int| 0 <= k < e0.len() implies s.subrange(i, i + e0.len())[k]
                == e0[k] by {
                assert(s[i + k] == body[k]);
                assert(body[k] == e0[k]);
            }
        }
        let n = i + e0.len() as int;
        assert(s[n] == ',') by {
            assert(s[i + e0.len() as int] == body[e0.len() as int]);
            assert(body[e0.len() as int] == ',');
        }
        assert(!is_digit(','));
        lemma_parse_ser(vs[0], s, i);
        assert(s.subrange(n + 1, n + 1 + rbody.len()) =~= rbody) by {
            assert forall|k: int| 0 <= k < rbody.len() implies s.subrange(
                n + 1,
                n + 1 + rbody.len(),
            )[k] == rbody[k] by {
                assert(s[i + (k + e0.len() + 1)] == body[k + e0.len() + 1]);
                assert(body[k + e0.len() + 1] == rbody[k]);
            }
        }
        assert(s[n + 1 + rbody.len()] == ']') by {
            assert(body.len() == e0.len() + 1 + rbody.len());
        }
        assert(wf_json_arr(rest));
        lemma_parse_ser_arr(rest, s, n + 1);
        assert(seq![vs[0]] + rest =~= vs);
        assert(n + 1 + rbody.len() + 1 == i + body.len() + 1);
    }
}

/// The field parser reads back a nonempty field list that the serializer
/// wrote, consuming the closing brace.
proof fn lemma_parse_ser_obj(fs: Seq<(Seq<char>, JsonV)>, s: Seq<char>, i: int)
    requires
        fs.len() >= 1,
        wf_json_obj(fs),
        0 <= i,
        i + ser_json_obj(fs).len() + 1 <= s.len(),
        s.subrange(i, i + ser_json_obj(fs).len() as int) == ser_json_obj(fs),
        s[i + ser_json_obj(fs).len()] == '}',
    ensures
        parse_obj_items_v(s, i) == Some((fs, i + ser_json_obj(fs).len() + 1)),
    decreases fs, 1nat,
{
    let body = ser_json_obj(fs);
    let k0 = fs[0].0;
    let v0 = fs[0].1;
    let ek = esc_str(k0);
    let e0 = ser_json(v0);
    let head = seq!['"'] + ek + seq!['"', ':'] + e0;
    lemma_ser_json_nonempty(v0);
    lemma_subrange_index(s, i, body);
    assert('}' as u32 == 125 && ',' as u32 == 44 && '"' as u32 == 34 && ':' as u32 == 58);
    let klen = ek.len() as int;
    let n1 = i + 1 + klen + 1;
    if fs.len() == 1 {
        assert(body =~= head);
    } else {
        assert(body =~= head + seq![','] + ser_json_obj(fs.skip(1)));
    }
    assert(head.len() == klen + 3 + e0.len());
    assert(s[i] == '"') by {
        assert(s[i + 0] == body[0]);
        assert(body[0] == head[0]);
        assert(head[0] == '"');
    }
    assert(s.subrange(i + 1, i + 1 + klen + 1) =~= ek + seq!['"']) by {
        assert forall|k: int| 0 <= k < klen + 1 implies s.subrange(i + 1, i + 1 + klen + 1)[k]
            == (ek + seq!['"'])[k] by {
            assert(s[i + (k + 1)] == body[k + 1]);
            assert(body[k + 1] == head[k + 1]);
            assert(head[k + 1] == (ek + seq!['"'])[k]);
        }
    }
    lemma_parse_str_of_esc(k0, s, i + 1);
    assert(s[n1] == ':') by {
        assert(s[i + (1 + klen + 1)] == body[1 + klen + 1]);
        assert(body[1 + klen + 1] == head[1 + klen + 1]);
        assert(head[1 + klen + 1] == ':');
    }
    assert(s.subrange(n1 + 1, n1 + 1 + e0.len()) =~= e0) by {
        assert forall|k: int| 0 <= k < e0.len() implies s.subrange(n1 + 1, n1 + 1 + e0.len())[k]
            == e0[k] by {
            assert(s[i + (k + klen + 3)] == body[k + klen + 3]);
            assert(body[k + klen + 3] == head[k + klen + 3]);
            assert(head[k + klen + 3] == e0[k]);
        }
    }
    let n2 = n1 + 1 + e0.len() as int;
    if fs.len() == 1 {
        assert(s[n2] == '}') by {
            assert(body.len() == head.len());
        }
        assert(!is_digit('}'));
        lemma_parse_ser(v0, s, n1 + 1);
        assert(s[n2] != ',');
        assert(seq![(k0, v0)] =~= fs) by {
            assert((k0, v0) == fs[0]);
        }
    } else {
        let rest = fs.skip(1);
        let rbody = ser_json_obj(rest);
        assert(s[n2] == ',') by {
            assert(s[i + head.len() as int] == body[head.len() as int]);
            assert(body[head.len() as int] == ',');
            assert(i + head.len() == n2);
        }
        assert(!is_digit(','));
        lemma_parse_ser(v0, s, n1 + 1);
        assert(s[n2] != '}');
        assert(s.subrange(n2 + 1, n2 + 1 + rbody.len()) =~= rbody) by {
            assert forall|k: int| 0 <= k < rbody.len() implies s.subrange(
                n2 + 1,
                n2 + 1 + rbody.len(),
            )[k] == rbody[k] by {
                assert(s[i + (k + head.len() + 1)] == body[k + head.len() + 1]);
                assert(body[k + head.len() + 1] == rbody[k]);
            }
        }
        assert(s[n2 + 1 + rbody.len()] == '}') by {
            assert(body.len() == head.len() + 1 + rbody.len());
        }
        assert(wf_json_obj(rest));
        lemma_parse_ser_obj(rest, s, n2 + 1);
        assert(seq![(k0, v0)] + rest =~= fs) by {
            assert((k0, v0) == fs[0]);
        }
        assert(n2 + 1 + rbody.len() + 1 == i + body.len() + 1);
    }
}

/// Serialize, then parse: the identity, for every well-formed document.
pub proof fn lemma_json_round_trip(j: JsonV)
    requires
        wf_json(j),
    ensures
        parse_json(ser_json(j)) == Some(j),
{
    let s = ser_json(j);
    assert(s.subrange(0, s.len() as int) =~= s);
    lemma_parse_ser(j, s, 0);
}

} // verus!
