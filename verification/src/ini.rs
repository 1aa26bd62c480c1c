//! How typed values are read from and written to INI settings: the text of
//! a value is trimmed of whitespace and parsed as a decimal integer (a
//! boolean is an integer that is not 0), and values are written back as
//! decimal text. The INI file itself, its sections and its storage belong
//! to the file layer.

use vstd::prelude::*;
use crate::text::char_is_whitespace;
use crate::text::chars_of;
use crate::text::decimal_digits;
use crate::text::is_whitespace;
use crate::text::lemma_trim_end_take;
use crate::text::lemma_trim_start_skip;
use crate::text::push_chars;
use crate::text::push_decimal;
use crate::text::trim_by;
use crate::text::trim_end_by;
use crate::text::trim_start_by;

verus! {

/// Whether `c` is a decimal digit.
pub open spec fn is_digit(c: char) -> bool {
    '0' <= c <= '9'
}

/// Whether every character of `s` is a decimal digit.
pub open spec fn all_digits(s: Seq<char>) -> bool {
    forall|i: int| 0 <= i < s.len() ==> is_digit(#[trigger] s[i])
}

/// The value of a run of decimal digits, most significant first.
pub open spec fn digits_value(s: Seq<char>) -> int
    decreases s.len(),
{
    if s.len() == 0 {
        0
    } else {
        digits_value(s.drop_last()) * 10 + (s.last() as int - '0' as int)
    }
}

/// The integer that `s` spells: an optional `+` (or, when `signed`, `-`)
/// followed by at least one decimal digit and nothing else.
pub open spec fn spelled_int(s: Seq<char>, signed: bool) -> Option<int> {
    let neg = signed && s.len() > 0 && s[0] == '-';
    let skip = s.len() > 0 && (s[0] == '+' || neg);
    let digits = if skip {
        s.drop_first()
    } else {
        s
    };
    if digits.len() > 0 && all_digits(digits) {
        Some(
            if neg {
                -digits_value(digits)
            } else {
                digits_value(digits)
            },
        )
    } else {
        None
    }
}

/// The integer an INI value holds when it must lie in `lo..=hi`: the value
/// trimmed of whitespace must spell an integer (see [`spelled_int`]) in
/// range; a minus sign is allowed when `lo` is negative.
pub open spec fn ini_int(raw: Seq<char>, lo: int, hi: int) -> Option<int> {
    match spelled_int(trim_by(raw, |c: char| is_whitespace(c)), lo < 0) {
        Some(v) => if lo <= v <= hi {
            Some(v)
        } else {
            None
        },
        None => None,
    }
}

/// Decimal text of `v`, with a leading `-` when negative.
pub open spec fn int_text(v: int) -> Seq<char> {
    if v < 0 {
        seq!['-'] + decimal_digits((-v) as nat)
    } else {
        decimal_digits(v as nat)
    }
}

proof fn lemma_digits_value_grows(s: Seq<char>, k: int)
    requires
        0 <= k <= s.len(),
        forall|i: int| 0 <= i < s.len() ==> is_digit(#[trigger] s[i]),
    ensures
        0 <= digits_value(s.take(k)) <= digits_value(s),
    decreases s.len() - k,
{
    if k < s.len() {
        lemma_digits_value_grows(s, k + 1);
        assert(s.take(k + 1).drop_last() =~= s.take(k));
    } else {
        assert(s.take(k) =~= s);
    }
    lemma_digits_value_nonneg(s);
}

proof fn lemma_digits_value_nonneg(s: Seq<char>)
    requires
        forall|i: int| 0 <= i < s.len() ==> is_digit(#[trigger] s[i]),
    ensures
        0 <= digits_value(s),
    decreases s.len(),
{
    if s.len() > 0 {
        assert(is_digit(s[s.len() - 1]));
        lemma_digits_value_nonneg(s.drop_last());
    }
}

proof fn lemma_decimal_digits_value(v: nat)
    ensures
        all_digits(decimal_digits(v)),
        decimal_digits(v).len() > 0,
        digits_value(decimal_digits(v)) == v,
        decimal_digits(v)[0] != '-' && decimal_digits(v)[0] != '+',
    decreases v,
{
    if v < 10 {
        let d = decimal_digits(v);
        assert(d.len() == 1);
        assert(d.last() as int == '0' as int + v);
        assert(d.drop_last() =~= Seq::<char>::empty());
        assert(digits_value(d.drop_last()) == 0);
        assert(digits_value(d) == v);
    } else {
        lemma_decimal_digits_value(v / 10);
        let d = decimal_digits(v);
        assert(d.drop_last() =~= decimal_digits(v / 10));
        assert(d.last() as int == '0' as int + v % 10);
        assert((v / 10) * 10 + v % 10 == v) by (nonlinear_arith);
        assert(digits_value(d) == digits_value(decimal_digits(v / 10)) * 10 + v % 10);
        assert(digits_value(decimal_digits(v / 10)) == v / 10);
        assert(digits_value(d) == v);
        assert forall|i: int| 0 <= i < d.len() implies is_digit(#[trigger] d[i]) by {
            if i < d.len() - 1 {
                assert(d[i] == decimal_digits(v / 10)[i]);
            }
        }
    }
}

/// Writing an integer and reading it back gives the integer: for every `v`
/// in `lo..=hi`, [`int_text`] of `v` reads back as `v` (a minus sign is
/// read only where negative values are allowed, as they are whenever `v`
/// is negative).
pub proof fn lemma_render_then_parse(v: int, lo: int, hi: int)
    requires
        lo <= v <= hi,
        lo <= 0,
    ensures
        ini_int(int_text(v), lo, hi) == Some(v),
{
    let t = int_text(v);
    let p = |c: char| is_whitespace(c);
    let m: nat = if v < 0 {
        (-v) as nat
    } else {
        v as nat
    };
    lemma_decimal_digits_value(m);
    let d = decimal_digits(m);
    assert forall|i: int| 0 <= i < t.len() implies !p(#[trigger] t[i]) by {
        if v < 0 {
            if i > 0 {
                assert(t[i] == d[i - 1]);
                assert(is_digit(d[i - 1]));
            }
        } else {
            assert(is_digit(d[i]));
        }
    }
    lemma_trim_start_skip(t, p, 0);
    assert(t.skip(0) =~= t);
    lemma_trim_end_take(t, p, t.len() as int);
    assert(t.take(t.len() as int) =~= t);
    assert(trim_by(t, p) == t);
    if v < 0 {
        assert(t.drop_first() =~= d);
    }
}

/// The whitespace-trimmed characters of `raw`.
fn trimmed(raw: &str) -> (r: Vec<char>)
    ensures
        r@ == trim_by(raw@, |c: char| is_whitespace(c)),
{
    let ghost p = |c: char| is_whitespace(c);
    let cs = chars_of(raw);
    let n = cs.len();
    let mut a: usize = 0;
    while a < n && char_is_whitespace(cs[a])
        invariant
            a <= n == cs@.len(),
            p == (|c: char| is_whitespace(c)),
            forall|i: int| 0 <= i < a ==> p(#[trigger] cs@[i]),
        decreases n - a,
    {
        a = a + 1;
    }
    proof {
        lemma_trim_start_skip(cs@, p, a as int);
    }
    let ghost t = cs@.skip(a as int);
    let mut b: usize = n;
    while b > a && char_is_whitespace(cs[b - 1])
        invariant
            a <= b <= n == cs@.len(),
            p == (|c: char| is_whitespace(c)),
            forall|i: int| b <= i < n ==> p(#[trigger] cs@[i]),
        decreases b,
    {
        b = b - 1;
    }
    proof {
        assert forall|i: int| b - a <= i < t.len() implies p(#[trigger] t[i]) by {
            assert(t[i] == cs@[a + i]);
        }
        if b > a {
            assert(t[b - a - 1] == cs@[b - 1]);
        }
        lemma_trim_end_take(t, p, b - a);
    }
    let mut r: Vec<char> = Vec::new();
    let mut i: usize = a;
    while i < b
        invariant
            a <= i <= b <= n == cs@.len(),
            r@ == cs@.subrange(a as int, i as int),
        decreases b - i,
    {
        r.push(cs[i]);
        i = i + 1;
        assert(r@ =~= cs@.subrange(a as int, i as int));
    }
    assert(t.take(b - a) =~= cs@.subrange(a as int, b as int));
    assert(raw@ == cs@);
    r
}

/// Parses `raw` as an integer in `lo..=hi` (see [`ini_int`]).
fn parse_ini_int(raw: &str, lo: i128, hi: i128) -> (r: Option<i128>)
    requires
        i64::MIN <= lo <= 0 <= hi <= u64::MAX,
    ensures
        match ini_int(raw@, lo as int, hi as int) {
            Some(v) => r == Some(v as i128),
            None => r is None,
        },
{
    let s = trimmed(raw);
    let ghost sv = s@;
    assert(sv == trim_by(raw@, |c: char| is_whitespace(c)));
    let signed = lo < 0;
    let n = s.len();
    let neg = signed && n > 0 && s[0] == '-';
    let skip = n > 0 && (s[0] == '+' || neg);
    let start: usize = if skip {
        1
    } else {
        0
    };
    let ghost digits = if skip {
        sv.drop_first()
    } else {
        sv
    };
    assert(digits =~= sv.skip(start as int));
    if start >= n {
        return None;
    }
    let limit: i128 = if neg {
        -lo
    } else {
        hi
    };
    let mut acc: i128 = 0;
    let mut i: usize = start;
    while i < n
        invariant
            start <= i <= n == sv.len(),
            s@ == sv,
            sv == trim_by(raw@, |c: char| is_whitespace(c)),
            signed == (lo < 0),
            neg == (signed && sv.len() > 0 && sv[0] == '-'),
            skip == (sv.len() > 0 && (sv[0] == '+' || neg)),
            start == (if skip {
                1usize
            } else {
                0usize
            }),
            limit == (if neg {
                -lo
            } else {
                hi as int
            }),
            i64::MIN <= lo <= 0 <= hi <= u64::MAX,
            digits == sv.skip(start as int),
            digits == (if skip {
                sv.drop_first()
            } else {
                sv
            }),
            0 <= limit <= u64::MAX,
            forall|j: int| 0 <= j < i - start ==> is_digit(#[trigger] digits[j]),
            acc == digits_value(digits.take(i - start)),
            0 <= acc <= limit,
        decreases n - i,
    {
        let c = s[i];
        assert(c == digits[i - start]);
        if !('0' <= c && c <= '9') {
            assert(!is_digit(digits[i - start]));
            assert(!all_digits(digits));
            assert(neg == (signed && sv.len() > 0 && sv[0] == '-'));
            assert(skip == (sv.len() > 0 && (sv[0] == '+' || neg)));
            assert(spelled_int(sv, signed) is None);
            return None;
        }
        let d = (c as u32 - '0' as u32) as i128;
        assert(digits.take(i + 1 - start).drop_last() =~= digits.take(i - start));
        acc = acc * 10 + d;
        i = i + 1;
        if acc > limit {
            proof {
                let k = i - start;
                if all_digits(digits) {
                    lemma_digits_value_grows(digits, k);
                    assert(digits_value(digits) > limit);
                    assert(spelled_int(sv, signed) == Some(
                        if neg {
                            -digits_value(digits)
                        } else {
                            digits_value(digits)
                        },
                    ));
                } else {
                    assert(spelled_int(sv, signed) is None);
                }
            }
            return None;
        }
    }
    assert(digits.take(n - start) =~= digits);
    if neg {
        Some(-acc)
    } else {
        Some(acc)
    }
}

/// Decimal text of `v` (see [`int_text`]).
fn render_int(v: i128) -> (r: String)
    requires
        i64::MIN <= v <= u64::MAX,
    ensures
        r@ == int_text(v as int),
{
    let mut cs: Vec<char> = Vec::new();
    if v < 0 {
        cs.push('-');
        push_decimal(&mut cs, (-v) as u64);
    } else {
        push_decimal(&mut cs, v as u64);
    }
    let mut out = String::new();
    let n = cs.len();
    push_chars(&mut out, &cs, n);
    assert(cs@.take(n as int) =~= cs@);
    out
}

/// A value type that can be read from and written to an INI setting.
pub trait IniValue: Sized {
    /// The value `raw` holds, if it holds one.
    fn parse(raw: &str) -> Option<Self>;

    /// The text written for this value.
    fn render(&self) -> String;
}

impl IniValue for String {
    /// The text itself.
    fn parse(raw: &str) -> (r: Option<Self>)
        ensures
            r matches Some(s) && s@ == raw@,
    {
        Some(raw.to_owned())
    }

    fn render(&self) -> (r: String)
        ensures
            r@ == self@,
    {
        let cs = chars_of(self.as_str());
        let mut out = String::new();
        let n = cs.len();
        push_chars(&mut out, &cs, n);
        assert(cs@.take(n as int) =~= cs@);
        out
    }
}

impl IniValue for bool {
    /// Any 64-bit integer: `true` unless it is 0.
    fn parse(raw: &str) -> (r: Option<Self>)
        ensures
            r == match ini_int(raw@, i64::MIN as int, i64::MAX as int) {
                Some(v) => Some(v != 0),
                None => None,
            },
    {
        match parse_ini_int(raw, i64::MIN as i128, i64::MAX as i128) {
            Some(v) => Some(v != 0),
            None => None,
        }
    }

    /// `"1"` or `"0"`.
    fn render(&self) -> (r: String)
        ensures
            r@ == (if *self {
                seq!['1']
            } else {
                seq!['0']
            }),
    {
        let r = if *self {
            render_int(1)
        } else {
            render_int(0)
        };
        proof {
            assert(decimal_digits(1) == seq!['1']);
            assert(decimal_digits(0) == seq!['0']);
        }
        r
    }
}

impl IniValue for i32 {
    fn parse(raw: &str) -> (r: Option<Self>)
        ensures
            r == match ini_int(raw@, i32::MIN as int, i32::MAX as int) {
                Some(v) => Some(v as i32),
                None => None,
            },
    {
        match parse_ini_int(raw, i32::MIN as i128, i32::MAX as i128) {
            Some(v) => Some(v as i32),
            None => None,
        }
    }

    fn render(&self) -> (r: String)
        ensures
            r@ == int_text(*self as int),
    {
        render_int(*self as i128)
    }
}

impl IniValue for u32 {
    fn parse(raw: &str) -> (r: Option<Self>)
        ensures
            r == match ini_int(raw@, 0, u32::MAX as int) {
                Some(v) => Some(v as u32),
                None => None,
            },
    {
        match parse_ini_int(raw, 0, u32::MAX as i128) {
            Some(v) => Some(v as u32),
            None => None,
        }
    }

    fn render(&self) -> (r: String)
        ensures
            r@ == int_text(*self as int),
    {
        render_int(*self as i128)
    }
}

impl IniValue for i64 {
    fn parse(raw: &str) -> (r: Option<Self>)
        ensures
            r == match ini_int(raw@, i64::MIN as int, i64::MAX as int) {
                Some(v) => Some(v as i64),
                None => None,
            },
    {
        match parse_ini_int(raw, i64::MIN as i128, i64::MAX as i128) {
            Some(v) => Some(v as i64),
            None => None,
        }
    }

    fn render(&self) -> (r: String)
        ensures
            r@ == int_text(*self as int),
    {
        render_int(*self as i128)
    }
}

impl IniValue for u64 {
    fn parse(raw: &str) -> (r: Option<Self>)
        ensures
            r == match ini_int(raw@, 0, u64::MAX as int) {
                Some(v) => Some(v as u64),
                None => None,
            },
    {
        match parse_ini_int(raw, 0, u64::MAX as i128) {
            Some(v) => Some(v as u64),
            None => None,
        }
    }

    fn render(&self) -> (r: String)
        ensures
            r@ == int_text(*self as int),
    {
        render_int(*self as i128)
    }
}

} // verus!
