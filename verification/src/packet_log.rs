//! Text of the packet log: a header line per packet and an `xxd`-style
//! dump of its bytes, and the short name of the log file of a server tag.
//! Opening the file and writing records belongs to the caller.

use vstd::prelude::*;
use crate::text::decimal_digits;
use crate::text::hex_padded;
use crate::text::is_whitespace;
use crate::text::lemma_trim_end_take;
use crate::text::lemma_trim_start_skip;
use crate::text::push_chars;
use crate::text::push_decimal;
use crate::text::push_hex;
use crate::text::push_repeat;
use crate::text::push_str_chars;
use crate::text::chars_of;
use crate::text::char_is_whitespace;
use crate::text::trim_by;

verus! {

/// Which way a packet travelled.
#[derive(Debug, Clone, Copy, PartialEq, Eq, Structural)]
pub enum Direction {
    Inbound,
    Outbound,
}

/// The arrow a log record shows for a direction.
pub open spec fn arrow_of(d: Direction) -> Seq<char> {
    match d {
        Direction::Inbound => seq!['<', '-'],
        Direction::Outbound => seq!['-', '>'],
    }
}

impl Direction {
    /// The arrow a log record shows: `<-` inbound, `->` outbound.
    pub fn arrow(&self) -> (r: &'static str)
        ensures
            r@ == arrow_of(*self),
    {
        match self {
            Direction::Inbound => {
                proof {
                    reveal_strlit("<-");
                }
                "<-"
            },
            Direction::Outbound => {
                proof {
                    reveal_strlit("->");
                }
                "->"
            },
        }
    }
}

/// Whether `c` is a square bracket.
pub open spec fn is_bracket(c: char) -> bool {
    c == '[' || c == ']'
}

/// ASCII lowercase of one character.
pub open spec fn ascii_lower(c: char) -> char {
    if 'A' <= c && c <= 'Z' {
        ((c as u32) + 32) as char
    } else {
        c
    }
}

/// The log-file name of a server tag: trimmed of whitespace, then of
/// square brackets, then of whitespace again, in ASCII lowercase.
pub open spec fn slug_of(tag: Seq<char>) -> Seq<char> {
    trim_by(
        trim_by(trim_by(tag, |c: char| is_whitespace(c)), |c: char| is_bracket(c)),
        |c: char| is_whitespace(c),
    ).map_values(|c: char| ascii_lower(c))
}

/// Whether `c` is trimmed: a square bracket (when `brackets`) or
/// whitespace (otherwise).
fn trimmed_char(c: char, brackets: bool) -> (r: bool)
    ensures
        brackets ==> r == is_bracket(c),
        !brackets ==> r == is_whitespace(c),
{
    if brackets {
        c == '[' || c == ']'
    } else {
        char_is_whitespace(c)
    }
}

/// `s` trimmed at both ends of the characters that are whitespace (when
/// `brackets` is false) or square brackets (when true).
fn trim_chars(s: &Vec<char>, brackets: bool) -> (r: Vec<char>)
    ensures
        !brackets ==> r@ == trim_by(s@, |c: char| is_whitespace(c)),
        brackets ==> r@ == trim_by(s@, |c: char| is_bracket(c)),
{
    let ghost p: spec_fn(char) -> bool = if brackets {
        |c: char| is_bracket(c)
    } else {
        |c: char| is_whitespace(c)
    };
    let n = s.len();
    let mut a: usize = 0;
    while a < n && trimmed_char(s[a], brackets)
        invariant
            n == s@.len(),
            a <= n,
            forall|i: int| 0 <= i < a ==> p(#[trigger] s@[i]),
            p == (if brackets {
                |c: char| is_bracket(c)
            } else {
                |c: char| is_whitespace(c)
            }),
        decreases n - a,
    {
        a = a + 1;
    }
    proof {
        lemma_trim_start_skip(s@, p, a as int);
    }
    let mut b: usize = n;
    while b > a && trimmed_char(s[b - 1], brackets)
        invariant
            n == s@.len(),
            a <= b <= n,
            forall|i: int| b <= i < n ==> p(#[trigger] s@[i]),
            p == (if brackets {
                |c: char| is_bracket(c)
            } else {
                |c: char| is_whitespace(c)
            }),
        decreases b,
    {
        b = b - 1;
    }
    let mut r: Vec<char> = Vec::new();
    let mut k: usize = a;
    while k < b
        invariant
            a <= k <= b <= n,
            n == s@.len(),
            r@ == s@.subrange(a as int, k as int),
        decreases b - k,
    {
        r.push(s[k]);
        k = k + 1;
        assert(r@ =~= s@.subrange(a as int, k as int));
    }
    proof {
        let t = s@.skip(a as int);
        assert forall|i: int| (b - a) <= i < t.len() implies p(#[trigger] t[i]) by {
            assert(t[i] == s@[i + a]);
        }
        if b > a {
            assert(t[b - a - 1] == s@[b - 1]);
        }
        lemma_trim_end_take(t, p, (b - a) as int);
        assert(t.take((b - a) as int) =~= s@.subrange(a as int, b as int));
    }
    r
}

/// The log-file name of a server tag (see [`slug_of`]).
pub fn slug(tag: &str) -> (r: String)
    ensures
        r@ == slug_of(tag@),
{
    let chars = chars_of(tag);
    let t1 = trim_chars(&chars, false);
    let t2 = trim_chars(&t1, true);
    let t3 = trim_chars(&t2, false);
    let mut lowered: Vec<char> = Vec::new();
    let mut k: usize = 0;
    while k < t3.len()
        invariant
            k <= t3@.len(),
            lowered@ == t3@.take(k as int).map_values(|c: char| ascii_lower(c)),
        decreases t3@.len() - k,
    {
        let c = t3[k];
        let l = if 'A' <= c && c <= 'Z' {
            ((c as u8) + 32) as char
        } else {
            c
        };
        lowered.push(l);
        k = k + 1;
        assert(lowered@ =~= t3@.take(k as int).map_values(|c: char| ascii_lower(c)));
    }
    assert(t3@.take(t3@.len() as int) =~= t3@);
    let mut out = String::new();
    push_chars(&mut out, &lowered, lowered.len());
    assert(lowered@.take(lowered@.len() as int) =~= lowered@);
    out
}

/// The header line of a log record: tag, timestamp, arrow, peer and the
/// byte count, ending in a newline.
pub open spec fn log_header(
    tag: Seq<char>,
    timestamp: Seq<char>,
    direction: Direction,
    peer: Seq<char>,
    len: nat,
) -> Seq<char> {
    tag + seq![' '] + timestamp + seq![' '] + arrow_of(direction) + seq![' '] + peer + seq![' ', '(']
        + decimal_digits(len) + seq![' ', 'b', 'y', 't', 'e', 's', ')', '\n']
}

/// Formats the header line of a log record (see [`log_header`]).
pub fn format_log_header(
    tag: &str,
    timestamp: &str,
    direction: Direction,
    peer: &str,
    len: usize,
) -> (r: String)
    ensures
        r@ == log_header(tag@, timestamp@, direction, peer@, len as nat),
{
    let mut v: Vec<char> = Vec::new();
    push_str_chars(&mut v, tag);
    v.push(' ');
    push_str_chars(&mut v, timestamp);
    v.push(' ');
    push_str_chars(&mut v, direction.arrow());
    v.push(' ');
    push_str_chars(&mut v, peer);
    v.push(' ');
    v.push('(');
    push_decimal(&mut v, len as u64);
    v.push(' ');
    v.push('b');
    v.push('y');
    v.push('t');
    v.push('e');
    v.push('s');
    v.push(')');
    v.push('\n');
    assert(v@ =~= log_header(tag@, timestamp@, direction, peer@, len as nat));
    let mut out = String::new();
    push_chars(&mut out, &v, v.len());
    assert(v@.take(v@.len() as int) =~= v@);
    out
}

/// The printable form of a byte in the ASCII pane: itself for `0x20..0x7f`,
/// a dot otherwise.
pub open spec fn dump_ascii(b: u8) -> char {
    if 0x20 <= b && b < 0x7f {
        b as char
    } else {
        '.'
    }
}

/// The hex cells of the first `j` bytes of a row: each a space and two
/// lowercase digits, with one extra space before the ninth.
pub open spec fn dump_hex_cells(chunk: Seq<u8>, j: nat) -> Seq<char>
    decreases j,
{
    if j == 0 {
        Seq::empty()
    } else {
        let k = (j - 1) as nat;
        dump_hex_cells(chunk, k) + (if k == 8 {
            seq![' ']
        } else {
            Seq::empty()
        }) + seq![' '] + hex_padded(chunk[k as int] as nat, 2, false)
    }
}

/// The ASCII pane of the first `j` bytes of a row.
pub open spec fn dump_ascii_cells(chunk: Seq<u8>, j: nat) -> Seq<char>
    decreases j,
{
    if j == 0 {
        Seq::empty()
    } else {
        dump_ascii_cells(chunk, (j - 1) as nat).push(dump_ascii(chunk[j - 1]))
    }
}

/// Spaces that line up the ASCII pane of a short row.
pub open spec fn dump_pad(n: nat) -> nat {
    ((16 - n) * 3 + if n <= 8 { 1int } else { 0int }) as nat
}

/// One dump row: offset, hex cells, padding, and the ASCII pane between
/// bars.
pub open spec fn dump_row(chunk: Seq<u8>, start: nat) -> Seq<char> {
    seq![' ', ' '] + hex_padded(start, 8, false) + seq![':'] + dump_hex_cells(chunk, chunk.len())
        + Seq::new(dump_pad(chunk.len()), |i: int| ' ') + seq![' ', ' ', '|'] + dump_ascii_cells(
        chunk,
        chunk.len(),
    ) + seq!['|', '\n']
}

/// Bytes `16 r .. 16 r + 16` (or fewer at the end).
pub open spec fn dump_chunk(bytes: Seq<u8>, r: nat) -> Seq<u8> {
    bytes.subrange(
        16 * r as int,
        if 16 * r + 16 <= bytes.len() {
            (16 * r + 16) as int
        } else {
            bytes.len() as int
        },
    )
}

/// The first `r` rows of the dump of `bytes`.
pub open spec fn dump_rows(bytes: Seq<u8>, r: nat) -> Seq<char>
    decreases r,
{
    if r == 0 {
        Seq::empty()
    } else {
        let k = (r - 1) as nat;
        dump_rows(bytes, k) + dump_row(dump_chunk(bytes, k), 16 * k)
    }
}

/// The whole dump: one row per 16 bytes.
pub open spec fn hex_dump(bytes: Seq<u8>) -> Seq<char> {
    dump_rows(bytes, ((bytes.len() + 15) / 16) as nat)
}

fn push_dump_row(out: &mut Vec<char>, bytes: &[u8], start: usize, end: usize)
    requires
        start < end <= bytes@.len(),
        end - start <= 16,
    ensures
        final(out)@ == old(out)@ + dump_row(bytes@.subrange(start as int, end as int), start as nat),
{
    let ghost chunk = bytes@.subrange(start as int, end as int);
    let ghost base = old(out)@;
    let n = end - start;
    out.push(' ');
    out.push(' ');
    push_hex(out, start as u64, 8, false);
    out.push(':');
    let ghost pre = out@;
    let mut j: usize = 0;
    while j < n
        invariant
            j <= n,
            n == end - start,
            n <= 16,
            start < end <= bytes@.len(),
            chunk == bytes@.subrange(start as int, end as int),
            out@ == pre + dump_hex_cells(chunk, j as nat),
        decreases n - j,
    {
        if j == 8 {
            out.push(' ');
        }
        out.push(' ');
        push_hex(out, bytes[start + j] as u64, 2, false);
        j = j + 1;
        assert(out@ =~= pre + dump_hex_cells(chunk, j as nat));
    }
    let pad = (16 - n) * 3 + if n <= 8 {
        1
    } else {
        0
    };
    push_repeat(out, ' ', pad);
    out.push(' ');
    out.push(' ');
    out.push('|');
    let ghost pre2 = out@;
    let mut j: usize = 0;
    while j < n
        invariant
            j <= n,
            n == end - start,
            start < end <= bytes@.len(),
            chunk == bytes@.subrange(start as int, end as int),
            out@ == pre2 + dump_ascii_cells(chunk, j as nat),
        decreases n - j,
    {
        let c = bytes[start + j];
        if 0x20 <= c && c < 0x7f {
            out.push(c as char);
        } else {
            out.push('.');
        }
        j = j + 1;
        assert(out@ =~= pre2 + dump_ascii_cells(chunk, j as nat));
    }
    out.push('|');
    out.push('\n');
    assert(out@ =~= base + dump_row(chunk, start as nat));
}

/// Appends the `xxd`-style dump of `bytes` to `out`: per 16 bytes a row
/// with the offset, the bytes in hex, and their printable ASCII.
pub fn append_hex_dump(out: &mut String, bytes: &[u8])
    requires
        bytes@.len() + 16 <= usize::MAX,
    ensures
        final(out)@ == old(out)@ + hex_dump(bytes@),
{
    let len = bytes.len();
    let rows = (len + 15) / 16;
    let mut v: Vec<char> = Vec::new();
    let mut r: usize = 0;
    while r < rows
        invariant
            len == bytes@.len(),
            len + 16 <= usize::MAX,
            rows == (len + 15) / 16,
            r <= rows,
            v@ == dump_rows(bytes@, r as nat),
        decreases rows - r,
    {
        let start = 16 * r;
        let end = if start + 16 <= len {
            start + 16
        } else {
            len
        };
        push_dump_row(&mut v, bytes, start, end);
        r = r + 1;
        assert(v@ =~= dump_rows(bytes@, r as nat));
    }
    push_chars(out, &v, v.len());
    assert(v@.take(v@.len() as int) =~= v@);
}

/// The text appended to the log for one packet: nothing for an empty
/// packet, else the header line followed by the dump.
pub open spec fn log_record_of(
    tag: Seq<char>,
    timestamp: Seq<char>,
    direction: Direction,
    peer: Seq<char>,
    bytes: Seq<u8>,
) -> Option<Seq<char>> {
    if bytes.len() == 0 {
        None
    } else {
        Some(log_header(tag, timestamp, direction, peer, bytes.len()) + hex_dump(bytes))
    }
}

/// The record logged for one packet (see [`log_record_of`]); the caller
/// supplies the clock reading and writes the record out.
pub fn log_record(
    tag: &str,
    timestamp: &str,
    direction: Direction,
    peer: &str,
    bytes: &[u8],
) -> (r: Option<String>)
    requires
        bytes@.len() + 16 <= usize::MAX,
    ensures
        match (r, log_record_of(tag@, timestamp@, direction, peer@, bytes@)) {
            (Some(s), Some(t)) => s@ == t,
            (None, None) => true,
            _ => false,
        },
{
    if bytes.len() == 0 {
        return None;
    }
    let mut out = format_log_header(tag, timestamp, direction, peer, bytes.len());
    append_hex_dump(&mut out, bytes);
    Some(out)
}

/// The name of a service's log file: its slug, then `-packets.log`.
pub open spec fn log_file_name_of(tag: Seq<char>) -> Seq<char> {
    slug_of(tag) + "-packets.log"@
}

/// The name of a service's log file (see [`log_file_name_of`]).
pub fn log_file_name(tag: &str) -> (r: String)
    ensures
        r@ == log_file_name_of(tag@),
{
    let mut v: Vec<char> = chars_of(slug(tag).as_str());
    push_str_chars(&mut v, "-packets.log");
    let mut out = String::new();
    push_chars(&mut out, &v, v.len());
    assert(v@.take(v@.len() as int) =~= v@);
    out
}

} // verus!
