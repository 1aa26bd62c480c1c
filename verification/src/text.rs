//! Character-level helpers for building strings: hexadecimal digits,
//! whitespace, and appending to a `String`.

use vstd::prelude::*;

verus! {

/// `String::push` appends one character.
pub assume_specification[ std::string::String::push ](s: &mut std::string::String, ch: char)
    ensures
        final(s)@ == old(s)@.push(ch),
;

/// Uppercase hexadecimal digit for a value below 16.
pub open spec fn hex_upper_digit(d: int) -> char {
    if d < 10 {
        (('0' as int) + d) as char
    } else {
        (('A' as int) + d - 10) as char
    }
}

/// Lowercase hexadecimal digit for a value below 16.
pub open spec fn hex_lower_digit(d: int) -> char {
    if d < 10 {
        (('0' as int) + d) as char
    } else {
        (('a' as int) + d - 10) as char
    }
}

/// Hexadecimal digits of `v` (most significant first), at least `width`
/// of them, zero-padded on the left.
pub open spec fn hex_padded(v: nat, width: nat, upper: bool) -> Seq<char>
    decreases v, width,
{
    if v == 0 && width == 0 {
        Seq::empty()
    } else {
        let w = if width > 0 { (width - 1) as nat } else { 0 };
        let d = (v % 16) as int;
        hex_padded(v / 16, w, upper).push(if upper { hex_upper_digit(d) } else { hex_lower_digit(d) })
    }
}

/// Hexadecimal digits of `v` without padding (`"0"` for zero).
pub open spec fn hex_digits(v: nat, upper: bool) -> Seq<char> {
    hex_padded(v, 1, upper)
}

/// `char::is_whitespace`: the Unicode `White_Space` property.
pub open spec fn is_whitespace(c: char) -> bool {
    let u = c as u32;
    (0x09 <= u <= 0x0D) || u == 0x20 || u == 0x85 || u == 0xA0 || u == 0x1680 || (0x2000 <= u <= 0x200A)
        || u == 0x2028 || u == 0x2029 || u == 0x202F || u == 0x205F || u == 0x3000
}

/// Exec test for [`is_whitespace`].
pub fn char_is_whitespace(c: char) -> (r: bool)
    ensures
        r == is_whitespace(c),
{
    let u = c as u32;
    (0x09 <= u && u <= 0x0D) || u == 0x20 || u == 0x85 || u == 0xA0 || u == 0x1680 || (0x2000 <= u
        && u <= 0x200A) || u == 0x2028 || u == 0x2029 || u == 0x202F || u == 0x205F || u == 0x3000
}

/// The hexadecimal digit character for `d < 16`.
pub fn hex_digit_char(d: u8, upper: bool) -> (c: char)
    requires
        d < 16,
    ensures
        c == if upper { hex_upper_digit(d as int) } else { hex_lower_digit(d as int) },
{
    if d < 10 {
        ((48u8 + d) as char)
    } else if upper {
        ((55u8 + d) as char)
    } else {
        ((87u8 + d) as char)
    }
}

/// Appends the hexadecimal digits of `v`, at least `width` of them.
pub fn push_hex(out: &mut Vec<char>, v: u64, width: usize, upper: bool)
    requires
        width <= 64,
    ensures
        final(out)@ == old(out)@ + hex_padded(v as nat, width as nat, upper),
{
    let ghost start = out@;
    let mut digits: Vec<char> = Vec::new();
    let mut rest: u64 = v;
    let mut w: usize = width;
    while !(rest == 0 && w == 0)
        invariant
            hex_padded(v as nat, width as nat, upper) == hex_padded(rest as nat, w as nat, upper)
                + digits@.reverse(),
            w <= 64,
        decreases rest, w,
    {
        let d = (rest % 16) as u8;
        let c = hex_digit_char(d, upper);
        let ghost before = digits@;
        digits.push(c);
        proof {
            let nw: nat = if w > 0 {
                (w - 1) as nat
            } else {
                0
            };
            assert(digits@.reverse() =~= seq![c] + before.reverse());
            assert(hex_padded(rest as nat, w as nat, upper) == hex_padded(
                (rest / 16) as nat,
                nw,
                upper,
            ).push(c));
            assert(hex_padded((rest / 16) as nat, nw, upper).push(c) + before.reverse()
                =~= hex_padded((rest / 16) as nat, nw, upper) + digits@.reverse());
        }
        rest = rest / 16;
        if w > 0 {
            w = w - 1;
        }
    }
    assert(hex_padded(0, 0, upper) == Seq::<char>::empty());
    let mut i = digits.len();
    let ghost rev = digits@.reverse();
    while i > 0
        invariant
            i <= digits@.len(),
            rev == digits@.reverse(),
            out@ == start + rev.subrange(0, (digits@.len() - i) as int),
        decreases i,
    {
        i = i - 1;
        out.push(digits[i]);
        assert(out@ =~= start + rev.subrange(0, (digits@.len() - i) as int));
    }
    assert(rev.subrange(0, digits@.len() as int) =~= rev);
}

/// Appends `n` copies of `c`.
pub fn push_repeat(out: &mut Vec<char>, c: char, n: usize)
    ensures
        final(out)@ == old(out)@ + Seq::new(n as nat, |i: int| c),
{
    let ghost start = out@;
    let mut k: usize = 0;
    while k < n
        invariant
            k <= n,
            out@ == start + Seq::new(k as nat, |i: int| c),
        decreases n - k,
    {
        out.push(c);
        k = k + 1;
        assert(out@ =~= start + Seq::new(k as nat, |i: int| c));
    }
}

/// Appends the first `n` characters of `chars` to `out`.
pub fn push_chars(out: &mut String, chars: &Vec<char>, n: usize)
    requires
        n <= chars@.len(),
    ensures
        final(out)@ == old(out)@ + chars@.take(n as int),
{
    let ghost start = out@;
    let mut k: usize = 0;
    while k < n
        invariant
            k <= n,
            n <= chars@.len(),
            out@ == start + chars@.take(k as int),
        decreases n - k,
    {
        out.push(chars[k]);
        k = k + 1;
        assert(out@ =~= start + chars@.take(k as int));
    }
}

/// The characters of `s`, in order.
pub fn chars_of(s: &str) -> (r: Vec<char>)
    ensures
        r@ == s@,
{
    let mut r: Vec<char> = Vec::new();
    for c in it: s.chars()
        invariant
            r@ == it.seq().take(it.index() as int),
            it.seq() == s@,
    {
        r.push(c);
        assert(r@ =~= it.seq().take(it.index() + 1));
    }
    r
}

/// `s` without the leading characters that satisfy `p`.
pub open spec fn trim_start_by(s: Seq<char>, p: spec_fn(char) -> bool) -> Seq<char>
    decreases s.len(),
{
    if s.len() > 0 && p(s[0]) {
        trim_start_by(s.drop_first(), p)
    } else {
        s
    }
}

/// `s` without the trailing characters that satisfy `p`.
pub open spec fn trim_end_by(s: Seq<char>, p: spec_fn(char) -> bool) -> Seq<char>
    decreases s.len(),
{
    if s.len() > 0 && p(s.last()) {
        trim_end_by(s.drop_last(), p)
    } else {
        s
    }
}

/// `s` without leading and trailing characters that satisfy `p`.
pub open spec fn trim_by(s: Seq<char>, p: spec_fn(char) -> bool) -> Seq<char> {
    trim_end_by(trim_start_by(s, p), p)
}

/// Trimming the start skips exactly the leading run of matches.
pub proof fn lemma_trim_start_skip(s: Seq<char>, p: spec_fn(char) -> bool, k: int)
    requires
        0 <= k <= s.len(),
        forall|i: int| 0 <= i < k ==> p(#[trigger] s[i]),
        k == s.len() || !p(s[k]),
    ensures
        trim_start_by(s, p) == s.skip(k),
    decreases k,
{
    if k > 0 {
        lemma_trim_start_skip(s.drop_first(), p, k - 1);
        assert(s.drop_first().skip(k - 1) =~= s.skip(k));
    } else {
        assert(s.skip(0) =~= s);
    }
}

/// Trimming the end keeps exactly the prefix before the trailing run of
/// matches.
pub proof fn lemma_trim_end_take(s: Seq<char>, p: spec_fn(char) -> bool, m: int)
    requires
        0 <= m <= s.len(),
        forall|i: int| m <= i < s.len() ==> p(#[trigger] s[i]),
        m == 0 || !p(s[m - 1]),
    ensures
        trim_end_by(s, p) == s.take(m),
    decreases s.len() - m,
{
    if m < s.len() {
        lemma_trim_end_take(s.drop_last(), p, m);
        assert(s.drop_last().take(m) =~= s.take(m));
    } else {
        assert(s.take(m) =~= s);
    }
}

/// Decimal digits of `v` (most significant first; `"0"` for zero).
pub open spec fn decimal_digits(v: nat) -> Seq<char>
    decreases v,
{
    if v < 10 {
        seq![(('0' as int) + v) as char]
    } else {
        decimal_digits(v / 10).push((('0' as int) + (v % 10)) as char)
    }
}

/// Appends the decimal digits of `v`.
pub fn push_decimal(out: &mut Vec<char>, v: u64)
    ensures
        final(out)@ == old(out)@ + decimal_digits(v as nat),
    decreases v,
{
    if v >= 10 {
        push_decimal(out, v / 10);
    }
    let d = (v % 10) as u8;
    let c = ((48u8 + d) as char);
    out.push(c);
    proof {
        if v >= 10 {
            assert(decimal_digits(v as nat) == decimal_digits((v / 10) as nat).push(c));
        }
    }
}

/// Appends every character of `s`.
pub fn push_str_chars(out: &mut Vec<char>, s: &str)
    ensures
        final(out)@ == old(out)@ + s@,
{
    let chars = chars_of(s);
    let ghost start = out@;
    let mut k: usize = 0;
    while k < chars.len()
        invariant
            k <= chars@.len(),
            chars@ == s@,
            out@ == start + chars@.take(k as int),
        decreases chars@.len() - k,
    {
        out.push(chars[k]);
        k = k + 1;
        assert(out@ =~= start + chars@.take(k as int));
    }
    assert(chars@.take(chars@.len() as int) =~= chars@);
}

} // verus!
