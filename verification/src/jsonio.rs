//! The executable JSON document type, its writer and its parser. Each one is
//! proved to implement exactly the specification-level serializer and parser
//! of `json`, so the round-trip law there carries over to running code.
use vstd::prelude::*;

use crate::json::{esc_char, esc_str, parse_arr_items_v, parse_int_v, parse_json, parse_obj_items_v,
    parse_str_v, parse_value_v, scan_digits, ser_json, ser_json_arr, ser_json_obj, wf_json,
    wf_json_arr, wf_json_obj, JsonV};
use crate::num::{dec_i, is_digit, parse_u64_all, push_dec_i64, val_digits};

verus! {

/// A JSON document as running code builds it.
pub enum Json {
    Null,
    Bool(bool),
    Int(i64),
    Str(Vec<char>),
    Arr(Vec<Json>),
    Obj(Vec<(Vec<char>, Json)>),
}

/// The document a `Json` value denotes.
pub open spec fn jv(j: Json) -> JsonV
    decreases j, 0nat,
{
    match j {
        Json::Null => JsonV::Null,
        Json::Bool(b) => JsonV::Bool(b),
        Json::Int(n) => JsonV::Int(n as int),
        Json::Str(s) => JsonV::Str(s@),
        Json::Arr(vs) => JsonV::Arr(jvs(vs@)),
        Json::Obj(fs) => JsonV::Obj(jfs(fs@)),
    }
}

/// The documents of a list of `Json` values.
pub open spec fn jvs(s: Seq<Json>) -> Seq<JsonV>
    decreases s, 1nat,
{
    if s.len() == 0 {
        Seq::empty()
    } else {
        seq![jv(s[0])] + jvs(s.skip(1))
    }
}

/// The documents of a list of fields.
pub open spec fn jfs(s: Seq<(Vec<char>, Json)>) -> Seq<(Seq<char>, JsonV)>
    decreases s, 1nat,
{
    if s.len() == 0 {
        Seq::empty()
    } else {
        seq![(s[0].0@, jv(s[0].1))] + jfs(s.skip(1))
    }
}

/// The element documents, read off pointwise.
pub proof fn lemma_jvs_index(s: Seq<Json>)
    ensures
        jvs(s).len() == s.len(),
        forall|i: int| 0 <= i < s.len() ==> jvs(s)[i] == jv(s[i]),
    decreases s.len(),
{
    if s.len() > 0 {
        lemma_jvs_index(s.skip(1));
        assert forall|i: int| 0 <= i < s.len() implies jvs(s)[i] == jv(s[i]) by {
            if i > 0 {
                assert(jvs(s.skip(1))[i - 1] == jv(s.skip(1)[i - 1]));
                assert(s.skip(1)[i - 1] == s[i]);
            }
        }
    }
}

/// The field documents, read off pointwise.
pub proof fn lemma_jfs_index(s: Seq<(Vec<char>, Json)>)
    ensures
        jfs(s).len() == s.len(),
        forall|i: int| 0 <= i < s.len() ==> jfs(s)[i] == (s[i].0@, jv(s[i].1)),
    decreases s.len(),
{
    if s.len() > 0 {
        lemma_jfs_index(s.skip(1));
        assert forall|i: int| 0 <= i < s.len() implies jfs(s)[i] == (s[i].0@, jv(s[i].1)) by {
            if i > 0 {
                assert(jfs(s.skip(1))[i - 1] == (s.skip(1)[i - 1].0@, jv(s.skip(1)[i - 1].1)));
                assert(s.skip(1)[i - 1] == s[i]);
            }
        }
    }
}

/// Every value running code can build denotes a well-formed document.
pub proof fn lemma_jv_wf(j: Json)
    ensures
        wf_json(jv(j)),
    decreases j, 0nat,
{
    match j {
        Json::Arr(vs) => {
            lemma_jvs_wf(vs@);
        },
        Json::Obj(fs) => {
            lemma_jfs_wf(fs@);
        },
        _ => {},
    }
}

proof fn lemma_jvs_wf(s: Seq<Json>)
    ensures
        wf_json_arr(jvs(s)),
    decreases s, 1nat,
{
    if s.len() > 0 {
        lemma_jv_wf(s[0]);
        lemma_jvs_wf(s.skip(1));
        assert((seq![jv(s[0])] + jvs(s.skip(1))).skip(1) =~= jvs(s.skip(1)));
        assert(jvs(s)[0] == jv(s[0]));
    }
}

proof fn lemma_jfs_wf(s: Seq<(Vec<char>, Json)>)
    ensures
        wf_json_obj(jfs(s)),
    decreases s, 1nat,
{
    if s.len() > 0 {
        lemma_jv_wf(s[0].1);
        lemma_jfs_wf(s.skip(1));
        assert((seq![(s[0].0@, jv(s[0].1))] + jfs(s.skip(1))).skip(1) =~= jfs(s.skip(1)));
        assert(jfs(s)[0].1 == jv(s[0].1));
    }
}

/// Escaping distributes over appending one character.
proof fn lemma_esc_str_push(s: Seq<char>, c: char)
    ensures
        esc_str(s.push(c)) == esc_str(s) + esc_char(c),
    decreases s.len(),
{
    if s.len() == 0 {
        assert(s.push(c).skip(1) =~= Seq::<char>::empty());
        assert(s.push(c)[0] == c);
        assert(esc_str(s.push(c)) == esc_char(c) + esc_str(Seq::<char>::empty()));
        assert(esc_char(c) + Seq::<char>::empty() =~= esc_char(c));
        assert(esc_str(s) + esc_char(c) =~= esc_char(c));
    } else {
        assert(s.push(c).skip(1) =~= s.skip(1).push(c));
        lemma_esc_str_push(s.skip(1), c);
        assert(s.push(c)[0] == s[0]);
        assert(esc_str(s.push(c)) =~= esc_str(s) + esc_char(c));
    }
}

/// Appends the escaped form of the characters of `t` to `out`.
fn write_escaped(t: &Vec<char>, out: &mut Vec<char>)
    ensures
        final(out)@ == old(out)@ + esc_str(t@),
{
    let mut k: usize = 0;
    proof {
        assert(t@.subrange(0, 0) =~= Seq::<char>::empty());
        assert(out@ =~= old(out)@ + esc_str(t@.subrange(0, 0)));
    }
    while k < t.len()
        invariant
            k <= t@.len(),
            out@ == old(out)@ + esc_str(t@.subrange(0, k as int)),
        decreases t@.len() - k,
    {
        let c = t[k];
        if c == '"' {
            out.push('\\');
            out.push('"');
        } else if c == '\\' {
            out.push('\\');
            out.push('\\');
        } else if c == '\n' {
            out.push('\\');
            out.push('n');
        } else if c == '\r' {
            out.push('\\');
            out.push('r');
        } else if c == '\t' {
            out.push('\\');
            out.push('t');
        } else {
            out.push(c);
        }
        proof {
            lemma_esc_str_push(t@.subrange(0, k as int), c);
            assert(t@.subrange(0, k as int).push(c) =~= t@.subrange(0, k as int + 1));
            assert(out@ =~= old(out)@ + esc_str(t@.subrange(0, k as int + 1)));
        }
        k = k + 1;
    }
    proof {
        assert(t@.subrange(0, t@.len() as int) =~= t@);
    }
}

/// Appends the canonical text of the document to `out`.
pub fn json_write(j: &Json, out: &mut Vec<char>)
    ensures
        final(out)@ == old(out)@ + ser_json(jv(*j)),
    decreases *j, 0nat, 0nat,
{
    match j {
        Json::Null => {
            out.push('n');
            out.push('u');
            out.push('l');
            out.push('l');
            proof {
                assert(out@ =~= old(out)@ + ser_json(jv(*j)));
            }
        },
        Json::Bool(b) => {
            if *b {
                out.push('t');
                out.push('r');
                out.push('u');
                out.push('e');
            } else {
                out.push('f');
                out.push('a');
                out.push('l');
                out.push('s');
                out.push('e');
            }
            proof {
                assert(out@ =~= old(out)@ + ser_json(jv(*j)));
            }
        },
        Json::Int(n) => {
            push_dec_i64(out, *n);
        },
        Json::Str(t) => {
            out.push('"');
            write_escaped(t, out);
            out.push('"');
            proof {
                assert(out@ =~= old(out)@ + ser_json(jv(*j)));
            }
        },
        Json::Arr(vs) => {
            out.push('[');
            if vs.len() > 0 {
                json_write_arr(vs, 0, out);
            }
            out.push(']');
            proof {
                if vs@.len() == 0 {
                    assert(jvs(vs@) =~= Seq::<JsonV>::empty());
                    assert(ser_json_arr(jvs(vs@)) =~= Seq::<char>::empty());
                } else {
                    assert(jvs(vs@).skip(0) =~= jvs(vs@));
                }
                assert(out@ =~= old(out)@ + ser_json(jv(*j)));
            }
        },
        Json::Obj(fs) => {
            out.push('{');
            if fs.len() > 0 {
                json_write_obj(fs, 0, out);
            }
            out.push('}');
            proof {
                if fs@.len() == 0 {
                    assert(jfs(fs@) =~= Seq::<(Seq<char>, JsonV)>::empty());
                    assert(ser_json_obj(jfs(fs@)) =~= Seq::<char>::empty());
                } else {
                    assert(jfs(fs@).skip(0) =~= jfs(fs@));
                }
                assert(out@ =~= old(out)@ + ser_json(jv(*j)));
            }
        },
    }
}

/// Appends the elements of `vs` from position `k` on, comma-separated.
fn json_write_arr(vs: &Vec<Json>, k: usize, out: &mut Vec<char>)
    requires
        k < vs@.len(),
    ensures
        final(out)@ == old(out)@ + ser_json_arr(jvs(vs@).skip(k as int)),
    decreases vs@, 1nat, vs@.len() - k,
{
    let ghost tail = jvs(vs@).skip(k as int);
    proof {
        lemma_jvs_index(vs@);
        assert(tail[0] == jv(vs@[k as int]));
    }
    json_write(&vs[k], out);
    if k < vs.len() - 1 {
        out.push(',');
        json_write_arr(vs, k + 1, out);
        proof {
            assert(tail.skip(1) =~= jvs(vs@).skip(k as int + 1));
            assert(tail.len() > 1);
            assert(ser_json_arr(tail) =~= ser_json(tail[0]) + seq![','] + ser_json_arr(
                tail.skip(1),
            ));
            assert(out@ =~= old(out)@ + ser_json_arr(tail));
        }
    } else {
        proof {
            assert(tail.len() == 1);
            assert(ser_json_arr(tail) =~= ser_json(tail[0]));
            assert(out@ =~= old(out)@ + ser_json_arr(tail));
        }
    }
}

/// Appends the fields of `fs` from position `k` on, comma-separated.
fn json_write_obj(fs: &Vec<(Vec<char>, Json)>, k: usize, out: &mut Vec<char>)
    requires
        k < fs@.len(),
    ensures
        final(out)@ == old(out)@ + ser_json_obj(jfs(fs@).skip(k as int)),
    decreases fs@, 1nat, fs@.len() - k,
{
    let ghost tail = jfs(fs@).skip(k as int);
    proof {
        lemma_jfs_index(fs@);
        assert(tail[0] == (fs@[k as int].0@, jv(fs@[k as int].1)));
    }
    out.push('"');
    write_escaped(&fs[k].0, out);
    out.push('"');
    out.push(':');
    json_write(&fs[k].1, out);
    let ghost head = seq!['"'] + esc_str(tail[0].0) + seq!['"', ':'] + ser_json(tail[0].1);
    if k < fs.len() - 1 {
        out.push(',');
        json_write_obj(fs, k + 1, out);
        proof {
            assert(tail.skip(1) =~= jfs(fs@).skip(k as int + 1));
            assert(tail.len() > 1);
            assert(ser_json_obj(tail) =~= head + seq![','] + ser_json_obj(tail.skip(1)));
            assert(out@ =~= old(out)@ + ser_json_obj(tail));
        }
    } else {
        proof {
            assert(tail.len() == 1);
            assert(ser_json_obj(tail) =~= head);
            assert(out@ =~= old(out)@ + ser_json_obj(tail));
        }
    }
}

/// The canonical text of a document.
pub fn json_to_chars(j: &Json) -> (out: Vec<char>)
    ensures
        out@ == ser_json(jv(*j)),
{
    let mut out: Vec<char> = Vec::new();
    json_write(j, &mut out);
    out
}

/// Parses the integer literal at `i`, as the specification parser does.
fn json_parse_int_at(s: &[char], i: usize) -> (r: Option<(Json, usize)>)
    requires
        i < s@.len(),
    ensures
        match r {
            Some((j, n)) => parse_int_v(s@, i as int) == Some((jv(j), n as int)),
            None => parse_int_v(s@, i as int) is None,
        },
{
    let neg = s[i] == '-';
    let st: usize = if neg {
        i + 1
    } else {
        i
    };
    let mut end: usize = st;
    while end < s.len() && 48 <= (s[end] as u32) && (s[end] as u32) <= 57
        invariant
            st <= end <= s@.len(),
            forall|j: int| st <= j < end ==> is_digit(#[trigger] s@[j]),
            scan_digits(s@, st as int) == scan_digits(s@, end as int),
        decreases s@.len() - end,
    {
        end = end + 1;
    }
    proof {
        assert(scan_digits(s@, end as int) == end);
        assert(scan_digits(s@, st as int) == end);
    }
    if end <= st {
        return None;
    }
    if (s[st] as u32) == 48 && end > st + 1 {
        proof {
            assert(s@[st as int] == crate::num::digit_char(0)) by {
                crate::text::lemma_char_eq(s@[st as int], crate::num::digit_char(0));
            }
        }
        return None;
    }
    proof {
        if s@[st as int] == crate::num::digit_char(0) {
            assert(s@[st as int] as u32 == 48);
        }
    }
    let digits = vstd::slice::slice_subrange(s, st, end);
    let m = match parse_u64_all(digits) {
        Some(m) => m,
        None => {
            // the digit run denotes a value beyond the unsigned 64-bit range,
            // so it is beyond both signed bounds as well
            proof {
                assert(forall|j: int|
                    0 <= j < digits@.len() ==> is_digit(#[trigger] digits@[j]));
                assert(val_digits(s@.subrange(st as int, end as int)) > u64::MAX);
            }
            return None;
        },
    };
    proof {
        assert(m as nat == val_digits(s@.subrange(st as int, end as int)));
    }
    if neg {
        if 1 <= m && m <= 9223372036854775808u64 {
            let n: i64 = if m == 9223372036854775808u64 {
                i64::MIN
            } else {
                -(m as i64)
            };
            Some((Json::Int(n), end))
        } else {
            None
        }
    } else {
        if m <= 9223372036854775807u64 {
            Some((Json::Int(m as i64), end))
        } else {
            None
        }
    }
}

/// Parses a string body at `i` (after the opening quote), as the
/// specification parser does.
fn json_parse_str_at(s: &[char], i: usize) -> (r: Option<(Vec<char>, usize)>)
    ensures
        match r {
            Some((t, n)) => parse_str_v(s@, i as int) == Some((t@, n as int)),
            None => parse_str_v(s@, i as int) is None,
        },
{
    let mut acc: Vec<char> = Vec::new();
    let mut cur: usize = i;
    proof {
        match parse_str_v(s@, i as int) {
            Some((r2, n2)) => {
                assert(acc@ + r2 =~= r2);
            },
            None => {},
        }
    }
    loop
        invariant
            i <= cur,
            parse_str_v(s@, i as int) == (match parse_str_v(s@, cur as int) {
                Some((r2, n2)) => Some((acc@ + r2, n2)),
                None => None::<(Seq<char>, int)>,
            }),
        decreases s@.len() - cur,
    {
        if cur >= s.len() {
            return None;
        }
        let c = s[cur];
        if c == '"' {
            proof {
                assert(acc@ + Seq::<char>::empty() =~= acc@);
            }
            return Some((acc, cur + 1));
        }
        if c == '\\' {
            if cur + 1 >= s.len() {
                return None;
            }
            let e = s[cur + 1];
            let u: char = if e == '"' {
                '"'
            } else if e == '\\' {
                '\\'
            } else if e == 'n' {
                '\n'
            } else if e == 'r' {
                '\r'
            } else if e == 't' {
                '\t'
            } else {
                return None;
            };
            let ghost acc0 = acc@;
            acc.push(u);
            proof {
                match parse_str_v(s@, cur as int + 2) {
                    Some((r2, n2)) => {
                        assert(acc0 + (seq![u] + r2) =~= acc@ + r2);
                    },
                    None => {},
                }
            }
            cur = cur + 2;
        } else {
            let ghost acc0 = acc@;
            acc.push(c);
            proof {
                match parse_str_v(s@, cur as int + 1) {
                    Some((r2, n2)) => {
                        assert(acc0 + (seq![c] + r2) =~= acc@ + r2);
                    },
                    None => {},
                }
            }
            cur = cur + 1;
        }
    }
}

/// Parses one value at `i`, as the specification parser does.
pub fn json_parse_at(s: &[char], i: usize) -> (r: Option<(Json, usize)>)
    ensures
        match r {
            Some((j, n)) => parse_value_v(s@, i as int) == Some((jv(j), n as int)),
            None => parse_value_v(s@, i as int) is None,
        },
    decreases s@.len() - i, 0nat,
{
    if i >= s.len() {
        return None;
    }
    let c = s[i];
    if c == 'n' {
        if s.len() >= 4 && i <= s.len() - 4 && s[i + 1] == 'u' && s[i + 2] == 'l' && s[i + 3]
            == 'l' {
            proof {
                assert(s@.subrange(i as int, i as int + 4) =~= seq!['n', 'u', 'l', 'l']);
            }
            Some((Json::Null, i + 4))
        } else {
            proof {
                if i + 4 <= s@.len() {
                    if s@.subrange(i as int, i as int + 4) == seq!['n', 'u', 'l', 'l'] {
                        assert(s@[i as int + 1] == 'u' && s@[i as int + 2] == 'l' && s@[i as int
                            + 3] == 'l') by {
                            assert(s@.subrange(i as int, i as int + 4)[1] == 'u');
                            assert(s@.subrange(i as int, i as int + 4)[2] == 'l');
                            assert(s@.subrange(i as int, i as int + 4)[3] == 'l');
                        }
                    }
                }
            }
            None
        }
    } else if c == 't' {
        if s.len() >= 4 && i <= s.len() - 4 && s[i + 1] == 'r' && s[i + 2] == 'u' && s[i + 3]
            == 'e' {
            proof {
                assert(s@.subrange(i as int, i as int + 4) =~= seq!['t', 'r', 'u', 'e']);
            }
            Some((Json::Bool(true), i + 4))
        } else {
            proof {
                if i + 4 <= s@.len() {
                    if s@.subrange(i as int, i as int + 4) == seq!['t', 'r', 'u', 'e'] {
                        assert(s@[i as int + 1] == 'r' && s@[i as int + 2] == 'u' && s@[i as int
                            + 3] == 'e') by {
                            assert(s@.subrange(i as int, i as int + 4)[1] == 'r');
                            assert(s@.subrange(i as int, i as int + 4)[2] == 'u');
                            assert(s@.subrange(i as int, i as int + 4)[3] == 'e');
                        }
                    }
                }
            }
            None
        }
    } else if c == 'f' {
        if s.len() >= 5 && i <= s.len() - 5 && s[i + 1] == 'a' && s[i + 2] == 'l' && s[i + 3]
            == 's' && s[i + 4] == 'e' {
            proof {
                assert(s@.subrange(i as int, i as int + 5) =~= seq!['f', 'a', 'l', 's', 'e']);
            }
            Some((Json::Bool(false), i + 5))
        } else {
            proof {
                if i + 5 <= s@.len() {
                    if s@.subrange(i as int, i as int + 5) == seq!['f', 'a', 'l', 's', 'e'] {
                        assert(s@[i as int + 1] == 'a' && s@[i as int + 2] == 'l' && s@[i as int
                            + 3] == 's' && s@[i as int + 4] == 'e') by {
                            assert(s@.subrange(i as int, i as int + 5)[1] == 'a');
                            assert(s@.subrange(i as int, i as int + 5)[2] == 'l');
                            assert(s@.subrange(i as int, i as int + 5)[3] == 's');
                            assert(s@.subrange(i as int, i as int + 5)[4] == 'e');
                        }
                    }
                }
            }
            None
        }
    } else if c == '"' {
        match json_parse_str_at(s, i + 1) {
            Some((t, n)) => Some((Json::Str(t), n)),
            None => None,
        }
    } else if c == '[' {
        if i + 1 < s.len() && s[i + 1] == ']' {
            let empty_vec: Vec<Json> = Vec::new();
            proof {
                assert(jvs(empty_vec@) == Seq::<JsonV>::empty());
            }
            Some((Json::Arr(empty_vec), i + 2))
        } else {
            match json_parse_arr_at(s, i + 1) {
                Some((vs, n)) => Some((Json::Arr(vs), n)),
                None => None,
            }
        }
    } else if c == '{' {
        if i + 1 < s.len() && s[i + 1] == '}' {
            let empty_vec: Vec<(Vec<char>, Json)> = Vec::new();
            proof {
                assert(jfs(empty_vec@) == Seq::<(Seq<char>, JsonV)>::empty());
            }
            Some((Json::Obj(empty_vec), i + 2))
        } else {
            match json_parse_obj_at(s, i + 1) {
                Some((fs, n)) => Some((Json::Obj(fs), n)),
                None => None,
            }
        }
    } else if c == '-' || (48 <= (c as u32) && (c as u32) <= 57) {
        json_parse_int_at(s, i)
    } else {
        proof {
            assert(!is_digit(s@[i as int]));
        }
        None
    }
}

/// Parses `value (',' value)* ']'` at `i`, as the specification parser does.
fn json_parse_arr_at(s: &[char], i: usize) -> (r: Option<(Vec<Json>, usize)>)
    ensures
        match r {
            Some((vs, n)) => parse_arr_items_v(s@, i as int) == Some((jvs(vs@), n as int)),
            None => parse_arr_items_v(s@, i as int) is None,
        },
    decreases s@.len() - i, 1nat,
{
    let first = match json_parse_at(s, i) {
        Some(x) => x,
        None => {
            return None;
        },
    };
    let (v, n) = first;
    if !(n > i && n < s.len()) {
        return None;
    }
    if s[n] == ']' {
        let ghost v0 = v;
        let mut vs: Vec<Json> = Vec::new();
        vs.push(v);
        proof {
            assert(vs@.skip(1) =~= Seq::<Json>::empty());
            assert(vs@[0] == v0);
            assert(jvs(vs@) == seq![jv(v0)] + jvs(Seq::<Json>::empty()));
            assert(seq![jv(v0)] + Seq::<JsonV>::empty() =~= seq![jv(v0)]);
        }
        return Some((vs, n + 1));
    }
    if s[n] == ',' {
        match json_parse_arr_at(s, n + 1) {
            Some((rest, n2)) => {
                let ghost v0 = v;
                let ghost rest_snap = rest@;
                let mut vs = rest;
                vs.insert(0, v);
                proof {
                    assert(vs@ =~= seq![v0] + rest_snap);
                    assert(vs@.skip(1) =~= rest_snap);
                    assert(jvs(vs@) == seq![jv(v0)] + jvs(rest_snap));
                }
                Some((vs, n2))
            },
            None => None,
        }
    } else {
        None
    }
}

/// Parses `'"' key '"' ':' value (',' ...)* '}'` at `i`, as the
/// specification parser does.
fn json_parse_obj_at(s: &[char], i: usize) -> (r: Option<(Vec<(Vec<char>, Json)>, usize)>)
    ensures
        match r {
            Some((fs, n)) => parse_obj_items_v(s@, i as int) == Some((jfs(fs@), n as int)),
            None => parse_obj_items_v(s@, i as int) is None,
        },
    decreases s@.len() - i, 1nat,
{
    if !(i < s.len()) {
        return None;
    }
    if s[i] != '"' {
        return None;
    }
    let key = match json_parse_str_at(s, i + 1) {
        Some(x) => x,
        None => {
            return None;
        },
    };
    let (k, n1) = key;
    if !(n1 > i + 1 && n1 < s.len()) {
        return None;
    }
    if s[n1] != ':' {
        return None;
    }
    let value = match json_parse_at(s, n1 + 1) {
        Some(x) => x,
        None => {
            return None;
        },
    };
    let (v, n2) = value;
    if !(n2 >= n1 + 1 && n2 < s.len()) {
        return None;
    }
    if s[n2] == '}' {
        let ghost k0 = k@;
        let ghost v0 = v;
        let mut fs: Vec<(Vec<char>, Json)> = Vec::new();
        fs.push((k, v));
        proof {
            assert(fs@.skip(1) =~= Seq::<(Vec<char>, Json)>::empty());
            assert(fs@[0].0@ == k0 && fs@[0].1 == v0);
            assert(jfs(fs@) == seq![(k0, jv(v0))] + jfs(Seq::<(Vec<char>, Json)>::empty()));
            assert(seq![(k0, jv(v0))] + Seq::<(Seq<char>, JsonV)>::empty() =~= seq![(k0, jv(v0))]);
        }
        return Some((fs, n2 + 1));
    }
    if s[n2] == ',' {
        match json_parse_obj_at(s, n2 + 1) {
            Some((rest, n3)) => {
                let ghost k0 = k@;
                let ghost v0 = v;
                let ghost rest_snap = rest@;
                let mut fs = rest;
                fs.insert(0, (k, v));
                proof {
                    assert(fs@.skip(1) =~= rest_snap);
                    assert(fs@[0].0@ == k0 && fs@[0].1 == v0);
                    assert(jfs(fs@) == seq![(k0, jv(v0))] + jfs(rest_snap));
                }
                Some((fs, n3))
            },
            None => None,
        }
    } else {
        None
    }
}

/// Parses a whole text as one document, as the specification parser does.
pub fn json_from_chars(s: &[char]) -> (r: Option<Json>)
    ensures
        match r {
            Some(j) => parse_json(s@) == Some(jv(j)),
            None => parse_json(s@) is None,
        },
{
    match json_parse_at(s, 0) {
        Some((j, n)) => {
            if n == s.len() {
                Some(j)
            } else {
                None
            }
        },
        None => None,
    }
}

} // verus!
