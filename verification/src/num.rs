//! Decimal rendering and parsing of the integers that appear in store keys
//! and in JSON values, with the round trip proved.
use vstd::prelude::*;

verus! {

/// The value of a one-digit string is the value of its digit.
pub proof fn lemma_val_digits_single(s: Seq<char>)
    requires
        s.len() == 1,
    ensures
        val_digits(s) == digit_val(s[0]),
{
    assert(s.drop_last() =~= Seq::<char>::empty());
    assert(s.last() == s[0]);
    assert(val_digits(Seq::<char>::empty()) == 0);
}

/// Digit characters and digit values convert back and forth.
pub proof fn lemma_digit_char_val(d: nat)
    requires
        d < 10,
    ensures
        digit_val(digit_char(d)) == d,
        is_digit(digit_char(d)),
{
}

/// A digit character is recovered from its value.
pub proof fn lemma_digit_char_roundtrip(c: char)
    requires
        is_digit(c),
    ensures
        digit_char(digit_val(c)) == c,
{
    crate::text::lemma_char_eq(digit_char(digit_val(c)), c);
}

/// The character for one decimal digit.
pub open spec fn digit_char(d: nat) -> char
    recommends
        d < 10,
{
    ((48 + d) as u8) as char
}

/// Is `c` an ASCII decimal digit?
pub open spec fn is_digit(c: char) -> bool {
    48 <= c as u32 <= 57
}

/// The numeric value of a digit character.
pub open spec fn digit_val(c: char) -> nat
    recommends
        is_digit(c),
{
    (c as u32 - 48) as nat
}

/// Decimal numeral of a nonnegative integer, most significant digit first,
/// without padding.
pub open spec fn dec_u(n: nat) -> Seq<char>
    decreases n,
{
    if n < 10 {
        seq![digit_char(n)]
    } else {
        dec_u(n / 10).push(digit_char(n % 10))
    }
}

/// Decimal numeral of an integer: a minus sign before the magnitude when
/// negative.
pub open spec fn dec_i(n: int) -> Seq<char> {
    if n < 0 {
        seq!['-'] + dec_u((-n) as nat)
    } else {
        dec_u(n as nat)
    }
}

/// Value of a digit string, most significant digit first.
pub open spec fn val_digits(s: Seq<char>) -> nat
    decreases s.len(),
{
    if s.len() == 0 {
        0
    } else {
        val_digits(s.drop_last()) * 10 + digit_val(s.last())
    }
}

/// Every character of a numeral is a digit, and a numeral is never empty.
pub proof fn lemma_dec_u_digits(n: nat)
    ensures
        dec_u(n).len() >= 1,
        forall|i: int| 0 <= i < dec_u(n).len() ==> is_digit(#[trigger] dec_u(n)[i]),
    decreases n,
{
    if n < 10 {
        assert(is_digit(digit_char(n)));
    } else {
        lemma_dec_u_digits(n / 10);
        assert(is_digit(digit_char(n % 10)));
        assert forall|i: int| 0 <= i < dec_u(n).len() implies is_digit(#[trigger] dec_u(n)[i]) by {
            if i < dec_u(n).len() - 1 {
                assert(dec_u(n)[i] == dec_u(n / 10)[i]);
            } else {
                assert(dec_u(n)[i] == digit_char(n % 10));
            }
        }
    }
}

/// Reading a numeral back yields the number it was written from.
pub proof fn lemma_val_dec_u(n: nat)
    ensures
        val_digits(dec_u(n)) == n,
    decreases n,
{
    if n < 10 {
        lemma_digit_char_val(n);
        lemma_val_digits_single(dec_u(n));
        assert(dec_u(n)[0] == digit_char(n));
    } else {
        lemma_val_dec_u(n / 10);
        lemma_digit_char_val(n % 10);
        assert(dec_u(n).drop_last() =~= dec_u(n / 10));
        assert(dec_u(n).last() == digit_char(n % 10));
    }
}

/// The numeral of a positive number never starts with the digit zero.
pub proof fn lemma_dec_u_no_leading_zero(n: nat)
    ensures
        n > 0 ==> dec_u(n)[0] != digit_char(0),
    decreases n,
{
    if n >= 10 {
        lemma_dec_u_no_leading_zero(n / 10);
        assert(dec_u(n)[0] == dec_u(n / 10)[0]);
    } else if n > 0 {
        assert(digit_char(n) as u32 == 48 + n);
        assert(digit_char(0) as u32 == 48);
    }
}

/// A nonempty digit string without a leading zero is the numeral of its own
/// value: decimal representations are unique.
pub proof fn lemma_canonical_digits(s: Seq<char>)
    requires
        s.len() >= 1,
        forall|i: int| 0 <= i < s.len() ==> is_digit(#[trigger] s[i]),
        s.len() > 1 ==> s[0] != digit_char(0),
    ensures
        s == dec_u(val_digits(s)),
        s[0] != digit_char(0) ==> val_digits(s) >= 1,
        s.len() >= 2 ==> val_digits(s) >= 10,
    decreases s.len(),
{
    if s.len() == 1 {
        let c = s[0];
        let d = digit_val(c);
        lemma_digit_char_roundtrip(c);
        lemma_val_digits_single(s);
        assert(val_digits(s) == d);
        assert(s =~= dec_u(d));
        if c != digit_char(0) {
            assert(c as u32 != 48) by {
                assert(digit_char(0) as u32 == 48);
            }
        }
    } else {
        let dl = s.drop_last();
        assert(dl[0] == s[0]);
        lemma_canonical_digits(dl);
        let md = val_digits(dl);
        let dv = digit_val(s.last());
        let m = val_digits(s);
        assert(m == md * 10 + dv);
        assert(md >= 1);
        assert(m >= 10);
        assert(m / 10 == md && m % 10 == dv) by {
            assert(dv < 10);
        }
        lemma_digit_char_roundtrip(s.last());
        assert(digit_char(dv) == s.last());
        assert(dec_u(m) == dec_u(md).push(s.last()));
        assert(s =~= dl.push(s.last()));
    }
}

/// Two numerals of equal text denote equal numbers.
pub proof fn lemma_dec_u_injective(a: nat, b: nat)
    requires
        dec_u(a) == dec_u(b),
    ensures
        a == b,
{
    lemma_val_dec_u(a);
    lemma_val_dec_u(b);
}

/// `dec_i` is injective as well.
pub proof fn lemma_dec_i_injective(a: int, b: int)
    requires
        dec_i(a) == dec_i(b),
    ensures
        a == b,
{
    lemma_dec_i_first_char(a);
    lemma_dec_i_first_char(b);
    if a < 0 && b < 0 {
        assert(dec_i(a).skip(1) =~= dec_u((-a) as nat));
        assert(dec_i(b).skip(1) =~= dec_u((-b) as nat));
        lemma_dec_u_injective((-a) as nat, (-b) as nat);
    } else if a >= 0 && b >= 0 {
        lemma_dec_u_injective(a as nat, b as nat);
    } else {
        assert(!is_digit('-')) by {
            assert('-' as u32 == 45);
        }
    }
}

/// The first character of a numeral is a digit for a nonnegative number and
/// the minus sign for a negative one.
pub proof fn lemma_dec_i_first_char(a: int)
    ensures
        dec_i(a).len() >= 1,
        a >= 0 ==> is_digit(dec_i(a)[0]),
        a < 0 ==> dec_i(a)[0] == '-',
{
    if a >= 0 {
        lemma_dec_u_digits(a as nat);
    } else {
        lemma_dec_u_digits((-a) as nat);
    }
}

/// Appends the decimal numeral of `n` to `out`.
pub fn push_dec_u64(out: &mut Vec<char>, n: u64)
    ensures
        final(out)@ == old(out)@ + dec_u(n as nat),
    decreases n,
{
    if n < 10 {
        let c: char = (48 + (n as u8)) as char;
        proof {
            assert(c == digit_char(n as nat));
            assert(dec_u(n as nat) =~= seq![digit_char(n as nat)]);
        }
        out.push(c);
        proof {
            assert(out@ =~= old(out)@ + dec_u(n as nat));
        }
    } else {
        push_dec_u64(out, n / 10);
        let c: char = (48 + ((n % 10) as u8)) as char;
        proof {
            assert(c == digit_char((n % 10) as nat));
        }
        out.push(c);
        proof {
            assert(out@ =~= old(out)@ + dec_u(n as nat));
        }
    }
}

/// Appends the decimal numeral of the signed `n` to `out`.
pub fn push_dec_i64(out: &mut Vec<char>, n: i64)
    ensures
        final(out)@ == old(out)@ + dec_i(n as int),
{
    if n < 0 {
        out.push('-');
        let m: u64 = if n == i64::MIN {
            9223372036854775808u64
        } else {
            (-n) as u64
        };
        proof {
            assert(m as nat == (-(n as int)) as nat);
        }
        push_dec_u64(out, m);
        proof {
            assert(out@ =~= old(out)@ + dec_i(n as int));
        }
    } else {
        push_dec_u64(out, n as u64);
    }
}

/// The decimal numeral of `n` as a fresh character vector.
pub fn dec_i64_chars(n: i64) -> (out: Vec<char>)
    ensures
        out@ == dec_i(n as int),
{
    let mut out: Vec<char> = Vec::new();
    push_dec_i64(&mut out, n);
    out
}

/// Parses an unsigned decimal numeral that spans the whole slice; fails on
/// an empty slice, on a non-digit, and on a value above `u64::MAX`.
pub fn parse_u64_all(s: &[char]) -> (r: Option<u64>)
    ensures
        r matches Some(n) ==> s@.len() >= 1 && (forall|i: int|
            0 <= i < s@.len() ==> is_digit(#[trigger] s@[i])) && n as nat == val_digits(s@),
        (s@.len() >= 1 && (forall|i: int| 0 <= i < s@.len() ==> is_digit(#[trigger] s@[i]))
            && val_digits(s@) <= u64::MAX) ==> (r matches Some(n) && n as nat == val_digits(s@)),
{
    if s.len() == 0 {
        return None;
    }
    let mut acc: u64 = 0;
    let mut i: usize = 0;
    while i < s.len()
        invariant
            i <= s@.len(),
            s@.len() >= 1,
            forall|j: int| 0 <= j < i ==> is_digit(#[trigger] s@[j]),
            acc as nat == val_digits(s@.subrange(0, i as int)),
        decreases s@.len() - i,
    {
        let c = s[i];
        let cv = c as u32;
        if !(48 <= cv && cv <= 57) {
            proof {
                assert(!is_digit(s@[i as int]));
            }
            return None;
        }
        let d: u64 = (cv - 48) as u64;
        proof {
            assert(s@.subrange(0, i as int + 1).drop_last() =~= s@.subrange(0, i as int));
            assert(s@.subrange(0, i as int + 1).last() == s@[i as int]);
            assert(digit_val(s@[i as int]) == d as nat);
        }
        if acc > (u64::MAX - d) / 10 {
            proof {
                lemma_val_digits_monotone(s@, i as int);
                assert(acc as nat * 10 + d as nat > u64::MAX) by (nonlinear_arith)
                    requires
                        acc > (u64::MAX - d) / 10,
                        d <= 9,
                ;
            }
            return None;
        }
        proof {
            assert(acc as nat * 10 + d as nat <= u64::MAX) by (nonlinear_arith)
                requires
                    acc <= (u64::MAX - d) / 10,
                    d <= 9,
            ;
        }
        acc = acc * 10 + d;
        i = i + 1;
    }
    proof {
        assert(s@.subrange(0, s@.len() as int) =~= s@);
    }
    Some(acc)
}

/// The value of a digit string is at least the value of any of its prefixes.
proof fn lemma_val_digits_monotone(s: Seq<char>, i: int)
    requires
        0 <= i < s.len(),
    ensures
        val_digits(s) >= val_digits(s.subrange(0, i + 1)),
    decreases s.len() - i,
{
    if i + 1 == s.len() {
        assert(s.subrange(0, i + 1) =~= s);
    } else {
        lemma_val_digits_monotone(s, i + 1);
        assert(s.subrange(0, i + 2).drop_last() =~= s.subrange(0, i + 1));
    }
}

/// Parses a signed decimal numeral spanning the whole slice, accepting
/// exactly the texts that `dec_i` writes for an `i64`.
pub fn parse_i64_all(s: &[char]) -> (r: Option<i64>)
    ensures
        forall|n: i64| s@ == dec_i(n as int) ==> r == Some(n),
        r matches Some(n) ==> s@ == dec_i(n as int),
{
    if s.len() >= 1 && s[0] == '-' {
        let rest = slice_suffix(s, 1);
        if rest.len() >= 2 && rest[0] == '0' {
            proof {
                lemma_no_neg_match_leading_zero(s@, rest@);
            }
            return None;
        }
        match parse_u64_all(rest) {
            Some(m) => {
                if 1 <= m && m <= 9223372036854775808u64 {
                    let n: i64 = if m == 9223372036854775808u64 {
                        i64::MIN
                    } else {
                        -(m as i64)
                    };
                    proof {
                        assert(rest@[0] != digit_char(0)) by {
                            if rest@.len() >= 2 {
                                assert(digit_char(0) as u32 == 48);
                            } else {
                                assert(rest@.len() == 1);
                                lemma_val_digits_single(rest@);
                                assert(digit_val(rest@[0]) >= 1);
                                assert(digit_char(0) as u32 == 48);
                            }
                        }
                        lemma_canonical_digits(rest@);
                        assert(s@ =~= seq!['-'] + rest@);
                        assert(s@ == dec_i(n as int));
                        assert forall|nn: i64| s@ == dec_i(nn as int) implies r_eq(nn, n) by {
                            lemma_dec_i_injective(nn as int, n as int);
                        }
                    }
                    Some(n)
                } else {
                    proof {
                        lemma_no_neg_match_range(s@, rest@, m as nat);
                    }
                    None
                }
            },
            None => {
                proof {
                    lemma_no_neg_match_unparsed(s@, rest@);
                }
                None
            },
        }
    } else {
        if s.len() >= 2 && s[0] == '0' {
            proof {
                lemma_no_pos_match_leading_zero(s@);
            }
            return None;
        }
        match parse_u64_all(s) {
            Some(m) => {
                if m <= i64::MAX as u64 {
                    let n: i64 = m as i64;
                    proof {
                        assert(s@[0] != digit_char(0) || s@.len() == 1) by {
                            assert(digit_char(0) as u32 == 48);
                        }
                        if s@.len() == 1 && s@[0] == digit_char(0) {
                            lemma_val_digits_single(s@);
                            lemma_digit_char_val(0);
                            assert(val_digits(s@) == 0);
                            assert(s@ =~= dec_u(0));
                        } else {
                            lemma_canonical_digits(s@);
                        }
                        assert(s@ == dec_i(n as int));
                        assert forall|nn: i64| s@ == dec_i(nn as int) implies r_eq(nn, n) by {
                            lemma_dec_i_injective(nn as int, n as int);
                        }
                    }
                    Some(n)
                } else {
                    proof {
                        lemma_no_pos_match_range(s@, m as nat);
                    }
                    None
                }
            },
            None => {
                proof {
                    lemma_no_pos_match_unparsed(s@);
                }
                None
            },
        }
    }
}

/// Trivial equality, used to give the quantified round-trip assertions a
/// stable shape.
pub open spec fn r_eq(a: i64, b: i64) -> bool {
    a == b
}

/// A subslice from `from` to the end.
pub fn slice_suffix(s: &[char], from: usize) -> (r: &[char])
    requires
        from <= s@.len(),
    ensures
        r@ == s@.skip(from as int),
{
    let r = vstd::slice::slice_subrange(s, from, s.len());
    proof {
        assert(r@ =~= s@.skip(from as int));
    }
    r
}

proof fn lemma_no_neg_match_leading_zero(s: Seq<char>, rest: Seq<char>)
    requires
        s.len() >= 1,
        s[0] == '-',
        rest == s.skip(1),
        rest.len() >= 2,
        rest[0] == '0',
    ensures
        forall|nn: i64| s != dec_i(nn as int),
{
    assert forall|nn: i64| s != dec_i(nn as int) by {
        if s == dec_i(nn as int) {
            lemma_dec_i_first_char(nn as int);
            if nn as int >= 0 {
                assert('-' as u32 == 45);
            } else {
                assert(rest =~= dec_u((-(nn as int)) as nat));
                lemma_dec_u_no_leading_zero((-(nn as int)) as nat);
                assert('0' as u32 == 48);
                assert(digit_char(0) as u32 == 48);
                assert(rest[0] == digit_char(0)) by {
                    assert(('0' as u32) as char == '0');
                    assert((digit_char(0) as u32) as char == digit_char(0));
                }
            }
        }
    }
}

proof fn lemma_no_neg_match_range(s: Seq<char>, rest: Seq<char>, m: nat)
    requires
        s.len() >= 1,
        s[0] == '-',
        rest == s.skip(1),
        rest.len() >= 1,
        forall|i: int| 0 <= i < rest.len() ==> is_digit(#[trigger] rest[i]),
        val_digits(rest) == m,
        m == 0 || m > 9223372036854775808,
    ensures
        forall|nn: i64| s != dec_i(nn as int),
{
    assert forall|nn: i64| s != dec_i(nn as int) by {
        if s == dec_i(nn as int) {
            lemma_dec_i_first_char(nn as int);
            if nn as int >= 0 {
                assert('-' as u32 == 45);
            } else {
                assert(rest =~= dec_u((-(nn as int)) as nat));
                lemma_val_dec_u((-(nn as int)) as nat);
            }
        }
    }
}

proof fn lemma_no_neg_match_unparsed(s: Seq<char>, rest: Seq<char>)
    requires
        s.len() >= 1,
        s[0] == '-',
        rest == s.skip(1),
        !(rest.len() >= 1 && (forall|i: int| 0 <= i < rest.len() ==> is_digit(#[trigger] rest[i]))
            && val_digits(rest) <= u64::MAX),
    ensures
        forall|nn: i64| s != dec_i(nn as int),
{
    assert forall|nn: i64| s != dec_i(nn as int) by {
        if s == dec_i(nn as int) {
            lemma_dec_i_first_char(nn as int);
            if nn as int >= 0 {
                assert('-' as u32 == 45);
            } else {
                assert(rest =~= dec_u((-(nn as int)) as nat));
                lemma_dec_u_digits((-(nn as int)) as nat);
                lemma_val_dec_u((-(nn as int)) as nat);
            }
        }
    }
}

proof fn lemma_no_pos_match_leading_zero(s: Seq<char>)
    requires
        s.len() >= 2,
        s[0] == '0',
    ensures
        forall|nn: i64| s != dec_i(nn as int),
{
    assert forall|nn: i64| s != dec_i(nn as int) by {
        if s == dec_i(nn as int) {
            lemma_dec_i_first_char(nn as int);
            if nn as int >= 0 {
                lemma_dec_u_no_leading_zero(nn as nat);
                assert('0' as u32 == 48);
                assert(digit_char(0) as u32 == 48);
                assert(s[0] == digit_char(0)) by {
                    assert(('0' as u32) as char == '0');
                    assert((digit_char(0) as u32) as char == digit_char(0));
                }
                if nn as int == 0 {
                    assert(dec_i(0).len() == 1);
                }
            } else {
                assert('-' as u32 == 45);
                assert('0' as u32 == 48);
            }
        }
    }
}

proof fn lemma_no_pos_match_range(s: Seq<char>, m: nat)
    requires
        s.len() >= 1,
        forall|i: int| 0 <= i < s.len() ==> is_digit(#[trigger] s[i]),
        val_digits(s) == m,
        m > i64::MAX as nat,
    ensures
        forall|nn: i64| s != dec_i(nn as int),
{
    assert forall|nn: i64| s != dec_i(nn as int) by {
        if s == dec_i(nn as int) {
            lemma_dec_i_first_char(nn as int);
            if nn as int >= 0 {
                lemma_val_dec_u(nn as nat);
            } else {
                assert('-' as u32 == 45);
            }
        }
    }
}

proof fn lemma_no_pos_match_unparsed(s: Seq<char>)
    requires
        !(s.len() >= 1 && (forall|i: int| 0 <= i < s.len() ==> is_digit(#[trigger] s[i]))
            && val_digits(s) <= u64::MAX),
        s.len() >= 1 ==> s[0] != '-',
    ensures
        forall|nn: i64| s != dec_i(nn as int),
{
    assert forall|nn: i64| s != dec_i(nn as int) by {
        if s == dec_i(nn as int) {
            lemma_dec_i_first_char(nn as int);
            if nn as int >= 0 {
                lemma_dec_u_digits(nn as nat);
                lemma_val_dec_u(nn as nat);
            }
        }
    }
}

} // verus!
