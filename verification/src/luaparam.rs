//! Lua call parameters as the client sends and receives them: a type byte,
//! a big-endian payload, and a closing `0x0F`.

use vstd::prelude::*;
use vstd::utf8::decode_utf8;
use vstd::utf8::encode_utf8;
use vstd::utf8::valid_utf8;
use crate::bytes::push_u32_be;
use crate::bytes::push_u64_be;
use crate::bytes::read_u16_be;
use crate::bytes::read_u32_be;
use crate::bytes::read_u64_be;
use crate::bytes::u16_be_at;
use crate::bytes::u32_be;
use crate::bytes::u32_be_at;
use crate::bytes::u64_be;
use crate::bytes::u64_be_at;
use crate::bytes::lemma_u32_be_roundtrip;
use crate::bytes::lemma_u64_be_roundtrip;
use crate::utils::decode_utf8_lossy;
use crate::utils::utf8_lossy;
use crate::text::hex_digits;
use crate::text::push_chars;
use crate::text::push_hex;
use crate::text::push_str_chars;

verus! {

/// One Lua parameter.
#[derive(Debug, Clone, PartialEq)]
pub enum LuaParam {
    /// Type 0x0: a signed 32-bit integer.
    Int32(i32),
    /// Type 0x1 when read; written with type byte 0x0.
    UInt32(u32),
    /// Type 0x2: a NUL-terminated string.
    String(String),
    /// Type 0x3.
    True,
    /// Type 0x4.
    False,
    /// Type 0x5.
    Nil,
    /// Type 0x6: an actor id.
    Actor(u32),
    /// Type 0x7: an inventory slot.
    Type7 { actor_id: u32, unknown: u8, slot: u8, inventory_type: u8 },
    /// Type 0x9: two 64-bit values.
    Type9 { item1: u64, item2: u64 },
    /// Type 0xC: a byte.
    Byte(u8),
    /// Type 0x1B: a 16-bit value; read, but written as its type byte alone.
    Short(u16),
}

/// A parameter as a value: strings as their characters.
pub enum LuaValue {
    Int32(i32),
    UInt32(u32),
    Str(Seq<char>),
    True,
    False,
    Nil,
    Actor(u32),
    Type7 { actor_id: u32, unknown: u8, slot: u8, inventory_type: u8 },
    Type9 { item1: u64, item2: u64 },
    Byte(u8),
    Short(u16),
}

impl View for LuaParam {
    type V = LuaValue;

    open spec fn view(&self) -> LuaValue {
        match self {
            LuaParam::Int32(v) => LuaValue::Int32(*v),
            LuaParam::UInt32(v) => LuaValue::UInt32(*v),
            LuaParam::String(s) => LuaValue::Str(s@),
            LuaParam::True => LuaValue::True,
            LuaParam::False => LuaValue::False,
            LuaParam::Nil => LuaValue::Nil,
            LuaParam::Actor(v) => LuaValue::Actor(*v),
            LuaParam::Type7 { actor_id, unknown, slot, inventory_type } => LuaValue::Type7 {
                actor_id: *actor_id,
                unknown: *unknown,
                slot: *slot,
                inventory_type: *inventory_type,
            },
            LuaParam::Type9 { item1, item2 } => LuaValue::Type9 { item1: *item1, item2: *item2 },
            LuaParam::Byte(b) => LuaValue::Byte(*b),
            LuaParam::Short(v) => LuaValue::Short(*v),
        }
    }
}

/// The byte that ends a parameter list.
pub const LUA_END: u8 = 0x0F;

/// Why a parameter list could not be read.
#[derive(Debug, Clone, Copy, PartialEq, Eq, Structural)]
pub enum LuaParamError {
    /// The bytes ended inside a parameter or before the end byte.
    UnexpectedEnd,
    /// A type byte that names no parameter type.
    UnknownType(u8),
}

/// The type byte a parameter is written with (unsigned integers share the
/// signed type 0x0).
pub open spec fn lua_type_id(v: LuaValue) -> u8 {
    match v {
        LuaValue::Int32(_) => 0x0,
        LuaValue::UInt32(_) => 0x0,
        LuaValue::Str(_) => 0x2,
        LuaValue::True => 0x3,
        LuaValue::False => 0x4,
        LuaValue::Nil => 0x5,
        LuaValue::Actor(_) => 0x6,
        LuaValue::Type7 { .. } => 0x7,
        LuaValue::Type9 { .. } => 0x9,
        LuaValue::Byte(_) => 0xC,
        LuaValue::Short(_) => 0x1B,
    }
}

impl LuaParam {
    /// The type byte this parameter is written with.
    pub fn type_id(&self) -> (r: u8)
        ensures
            r == lua_type_id(self@),
    {
        match self {
            LuaParam::Int32(_) => 0x0,
            LuaParam::UInt32(_) => 0x0,
            LuaParam::String(_) => 0x2,
            LuaParam::True => 0x3,
            LuaParam::False => 0x4,
            LuaParam::Nil => 0x5,
            LuaParam::Actor(_) => 0x6,
            LuaParam::Type7 { .. } => 0x7,
            LuaParam::Type9 { .. } => 0x9,
            LuaParam::Byte(_) => 0xC,
            LuaParam::Short(_) => 0x1B,
        }
    }
}

/// The payload written after a parameter's type byte.
pub open spec fn lua_payload(v: LuaValue) -> Seq<u8> {
    match v {
        LuaValue::Int32(x) => u32_be(x as u32),
        LuaValue::UInt32(x) => u32_be(x),
        LuaValue::Str(s) => encode_utf8(s).push(0),
        LuaValue::Actor(x) => u32_be(x),
        LuaValue::Type7 { actor_id, unknown, slot, inventory_type } => u32_be(actor_id) + seq![
            unknown,
            slot,
            inventory_type,
        ],
        LuaValue::Type9 { item1, item2 } => u64_be(item1) + u64_be(item2),
        LuaValue::Byte(b) => seq![b],
        _ => Seq::empty(),
    }
}

/// The bytes of one parameter: type byte then payload.
pub open spec fn lua_item(v: LuaValue) -> Seq<u8> {
    seq![lua_type_id(v)] + lua_payload(v)
}

/// The bytes of a run of parameters, without the end byte.
pub open spec fn lua_items(vs: Seq<LuaValue>) -> Seq<u8>
    decreases vs.len(),
{
    if vs.len() == 0 {
        Seq::empty()
    } else {
        lua_items(vs.drop_last()) + lua_item(vs.last())
    }
}

/// The bytes of a parameter list: each parameter, then the end byte.
pub open spec fn lua_encoded(vs: Seq<LuaValue>) -> Seq<u8> {
    lua_items(vs).push(LUA_END)
}

/// The values of a slice of parameters.
pub open spec fn lua_values(ps: Seq<LuaParam>) -> Seq<LuaValue> {
    ps.map_values(|p: LuaParam| p@)
}

/// Appends the bytes of one parameter.
fn write_lua_param(out: &mut Vec<u8>, p: &LuaParam)
    ensures
        final(out)@ == old(out)@ + lua_item(p@),
{
    let ghost start = out@;
    out.push(p.type_id());
    match p {
        LuaParam::Int32(v) => push_u32_be(out, *v as u32),
        LuaParam::UInt32(v) => push_u32_be(out, *v),
        LuaParam::String(s) => {
            let bytes = s.as_str().as_bytes();
            let ghost mid = out@;
            let mut i: usize = 0;
            while i < bytes.len()
                invariant
                    i <= bytes@.len(),
                    bytes@ == encode_utf8(s@),
                    out@ == mid + bytes@.take(i as int),
                decreases bytes@.len() - i,
            {
                out.push(bytes[i]);
                i = i + 1;
                assert(out@ =~= mid + bytes@.take(i as int));
            }
            assert(bytes@.take(bytes@.len() as int) =~= bytes@);
            out.push(0);
        },
        LuaParam::True | LuaParam::False | LuaParam::Nil => {},
        LuaParam::Actor(v) => push_u32_be(out, *v),
        LuaParam::Type7 { actor_id, unknown, slot, inventory_type } => {
            push_u32_be(out, *actor_id);
            out.push(*unknown);
            out.push(*slot);
            out.push(*inventory_type);
        },
        LuaParam::Type9 { item1, item2 } => {
            push_u64_be(out, *item1);
            push_u64_be(out, *item2);
        },
        LuaParam::Byte(b) => out.push(*b),
        LuaParam::Short(_) => {},
    }
    assert(out@ =~= start + lua_item(p@));
}

/// Appends the bytes of `params` and the end byte to `out`.
pub fn write_lua_params(out: &mut Vec<u8>, params: &[LuaParam])
    ensures
        final(out)@ == old(out)@ + lua_encoded(lua_values(params@)),
{
    let ghost start = out@;
    let mut i: usize = 0;
    while i < params.len()
        invariant
            i <= params@.len(),
            out@ == start + lua_items(lua_values(params@.take(i as int))),
        decreases params@.len() - i,
    {
        write_lua_param(out, &params[i]);
        proof {
            let vs = lua_values(params@.take(i as int + 1));
            assert(vs.drop_last() =~= lua_values(params@.take(i as int)));
            assert(vs.last() == params@[i as int]@);
        }
        i = i + 1;
        assert(out@ =~= start + lua_items(lua_values(params@.take(i as int))));
    }
    assert(params@.take(params@.len() as int) =~= params@);
    out.push(LUA_END);
}


/// The index of the first zero byte at or after `p`.
pub open spec fn first_zero_from(bytes: Seq<u8>, p: int) -> Option<int>
    decreases bytes.len() - p,
{
    if p < 0 || p >= bytes.len() {
        None
    } else if bytes[p] == 0 {
        Some(p)
    } else {
        first_zero_from(bytes, p + 1)
    }
}

/// What a string's bytes read as: their characters when valid UTF-8, the
/// lenient decoding otherwise.
pub open spec fn lua_string_chars(b: Seq<u8>) -> Seq<char> {
    if valid_utf8(b) {
        decode_utf8(b)
    } else {
        utf8_lossy(b)
    }
}

/// The parameter whose type byte is at `pos` (not the end byte), and the
/// position after it.
pub open spec fn lua_item_at(bytes: Seq<u8>, pos: int) -> Result<(LuaValue, int), LuaParamError> {
    let code = bytes[pos];
    let p = pos + 1;
    let n = bytes.len();
    if code == 0x0 {
        if p + 4 <= n {
            Ok((LuaValue::Int32(u32_be_at(bytes, p) as i32), p + 4))
        } else {
            Err(LuaParamError::UnexpectedEnd)
        }
    } else if code == 0x1 {
        if p + 4 <= n {
            Ok((LuaValue::UInt32(u32_be_at(bytes, p)), p + 4))
        } else {
            Err(LuaParamError::UnexpectedEnd)
        }
    } else if code == 0x2 {
        match first_zero_from(bytes, p) {
            Some(e) => Ok((LuaValue::Str(lua_string_chars(bytes.subrange(p, e))), e + 1)),
            None => Err(LuaParamError::UnexpectedEnd),
        }
    } else if code == 0x3 {
        Ok((LuaValue::True, p))
    } else if code == 0x4 {
        Ok((LuaValue::False, p))
    } else if code == 0x5 {
        Ok((LuaValue::Nil, p))
    } else if code == 0x6 {
        if p + 4 <= n {
            Ok((LuaValue::Actor(u32_be_at(bytes, p)), p + 4))
        } else {
            Err(LuaParamError::UnexpectedEnd)
        }
    } else if code == 0x7 {
        if p + 7 <= n {
            Ok(
                (
                    LuaValue::Type7 {
                        actor_id: u32_be_at(bytes, p),
                        unknown: bytes[p + 4],
                        slot: bytes[p + 5],
                        inventory_type: bytes[p + 6],
                    },
                    p + 7,
                ),
            )
        } else {
            Err(LuaParamError::UnexpectedEnd)
        }
    } else if code == 0x9 {
        if p + 16 <= n {
            Ok(
                (
                    LuaValue::Type9 { item1: u64_be_at(bytes, p), item2: u64_be_at(bytes, p + 8) },
                    p + 16,
                ),
            )
        } else {
            Err(LuaParamError::UnexpectedEnd)
        }
    } else if code == 0xC {
        if p + 1 <= n {
            Ok((LuaValue::Byte(bytes[p]), p + 1))
        } else {
            Err(LuaParamError::UnexpectedEnd)
        }
    } else if code == 0x1B {
        if p + 2 <= n {
            Ok((LuaValue::Short(u16_be_at(bytes, p)), p + 2))
        } else {
            Err(LuaParamError::UnexpectedEnd)
        }
    } else {
        Err(LuaParamError::UnknownType(code))
    }
}

/// Reads parameters from `pos` up to and including the end byte.
pub open spec fn lua_parse(bytes: Seq<u8>, pos: int) -> Result<Seq<LuaValue>, LuaParamError>
    decreases bytes.len() - pos,
{
    if pos < 0 || pos >= bytes.len() {
        Err(LuaParamError::UnexpectedEnd)
    } else if bytes[pos] == LUA_END {
        Ok(Seq::empty())
    } else {
        match lua_item_at(bytes, pos) {
            Err(e) => Err(e),
            Ok((v, next)) => if pos < next <= bytes.len() {
                match lua_parse(bytes, next) {
                    Ok(rest) => Ok(seq![v] + rest),
                    Err(e) => Err(e),
                }
            } else {
                Err(LuaParamError::UnexpectedEnd)
            },
        }
    }
}

/// `pre` followed by a parse result.
pub open spec fn after(pre: Seq<LuaValue>, r: Result<Seq<LuaValue>, LuaParamError>) -> Result<
    Seq<LuaValue>,
    LuaParamError,
> {
    match r {
        Ok(s) => Ok(pre + s),
        Err(e) => Err(e),
    }
}

proof fn lemma_first_zero_from(bytes: Seq<u8>, p: int, e: int)
    requires
        0 <= p <= e <= bytes.len(),
        forall|i: int| p <= i < e ==> bytes[i] != 0,
    ensures
        e < bytes.len() && bytes[e] == 0 ==> first_zero_from(bytes, p) == Some(e),
        e == bytes.len() ==> first_zero_from(bytes, p) is None,
    decreases e - p,
{
    if p < e {
        lemma_first_zero_from(bytes, p + 1, e);
    }
}

/// Reads the parameter whose type byte is at `pos`.
fn read_lua_item(bytes: &[u8], pos: usize) -> (r: Result<(LuaParam, usize), LuaParamError>)
    requires
        pos < bytes@.len(),
        bytes[pos as int] != LUA_END,
    ensures
        match (r, lua_item_at(bytes@, pos as int)) {
            (Ok((p, next)), Ok((v, n))) => p@ == v && next == n && pos < next <= bytes@.len(),
            (Err(e), Err(f)) => e == f,
            _ => false,
        },
{
    let n = bytes.len();
    let code = bytes[pos];
    let p = pos + 1;
    if code == 0x0 {
        if n - p >= 4 {
            Ok((LuaParam::Int32(read_u32_be(bytes, p) as i32), p + 4))
        } else {
            Err(LuaParamError::UnexpectedEnd)
        }
    } else if code == 0x1 {
        if n - p >= 4 {
            Ok((LuaParam::UInt32(read_u32_be(bytes, p)), p + 4))
        } else {
            Err(LuaParamError::UnexpectedEnd)
        }
    } else if code == 0x2 {
        let mut e = p;
        while e < n && bytes[e] != 0
            invariant
                n == bytes@.len(),
                p <= e <= n,
                forall|i: int| p <= i < e ==> bytes@[i] != 0,
            decreases n - e,
        {
            e = e + 1;
        }
        proof {
            lemma_first_zero_from(bytes@, p as int, e as int);
        }
        if e >= n {
            return Err(LuaParamError::UnexpectedEnd);
        }
        let mut raw: Vec<u8> = Vec::new();
        let mut k = p;
        while k < e
            invariant
                p <= k <= e < n,
                n == bytes@.len(),
                raw@ == bytes@.subrange(p as int, k as int),
            decreases e - k,
        {
            raw.push(bytes[k]);
            k = k + 1;
            assert(raw@ =~= bytes@.subrange(p as int, k as int));
        }
        let s = decode_utf8_lossy(raw.as_slice());
        Ok((LuaParam::String(s), e + 1))
    } else if code == 0x3 {
        Ok((LuaParam::True, p))
    } else if code == 0x4 {
        Ok((LuaParam::False, p))
    } else if code == 0x5 {
        Ok((LuaParam::Nil, p))
    } else if code == 0x6 {
        if n - p >= 4 {
            Ok((LuaParam::Actor(read_u32_be(bytes, p)), p + 4))
        } else {
            Err(LuaParamError::UnexpectedEnd)
        }
    } else if code == 0x7 {
        if n - p >= 7 {
            Ok(
                (
                    LuaParam::Type7 {
                        actor_id: read_u32_be(bytes, p),
                        unknown: bytes[p + 4],
                        slot: bytes[p + 5],
                        inventory_type: bytes[p + 6],
                    },
                    p + 7,
                ),
            )
        } else {
            Err(LuaParamError::UnexpectedEnd)
        }
    } else if code == 0x9 {
        if n - p >= 16 {
            Ok(
                (
                    LuaParam::Type9 { item1: read_u64_be(bytes, p), item2: read_u64_be(bytes, p + 8) },
                    p + 16,
                ),
            )
        } else {
            Err(LuaParamError::UnexpectedEnd)
        }
    } else if code == 0xC {
        if n - p >= 1 {
            Ok((LuaParam::Byte(bytes[p]), p + 1))
        } else {
            Err(LuaParamError::UnexpectedEnd)
        }
    } else if code == 0x1B {
        if n - p >= 2 {
            Ok((LuaParam::Short(read_u16_be(bytes, p)), p + 2))
        } else {
            Err(LuaParamError::UnexpectedEnd)
        }
    } else {
        Err(LuaParamError::UnknownType(code))
    }
}

/// Reads a parameter list from the start of `bytes` (see
/// [`read_lua_params_from`]).
pub fn read_lua_params(bytes: &[u8]) -> (r: Result<Vec<LuaParam>, LuaParamError>)
    ensures
        match (r, lua_parse(bytes@, 0)) {
            (Ok(ps), Ok(vs)) => lua_values(ps@) == vs,
            (Err(e), Err(f)) => e == f,
            _ => false,
        },
{
    read_lua_params_from(bytes, 0)
}

/// Reads a parameter list starting at byte `start` (see [`lua_parse`]):
/// the parameters up to the end byte, or why they could not be read.
pub fn read_lua_params_from(bytes: &[u8], start: usize) -> (r: Result<Vec<LuaParam>, LuaParamError>)
    ensures
        match (r, lua_parse(bytes@, start as int)) {
            (Ok(ps), Ok(vs)) => lua_values(ps@) == vs,
            (Err(e), Err(f)) => e == f,
            _ => false,
        },
{
    let n = bytes.len();
    let mut out: Vec<LuaParam> = Vec::new();
    if start >= n {
        return Err(LuaParamError::UnexpectedEnd);
    }
    let mut pos: usize = start;
    assert(lua_values(out@) =~= Seq::<LuaValue>::empty());
    proof {
        match lua_parse(bytes@, start as int) {
            Ok(vs) => {
                assert(Seq::<LuaValue>::empty() + vs =~= vs);
            },
            Err(_) => {},
        }
    }
    loop
        invariant
            n == bytes@.len(),
            pos <= n,
            lua_parse(bytes@, start as int) == after(lua_values(out@), lua_parse(bytes@, pos as int)),
        decreases n - pos,
    {
        if pos >= n {
            return Err(LuaParamError::UnexpectedEnd);
        }
        if bytes[pos] == LUA_END {
            assert(lua_values(out@) + Seq::<LuaValue>::empty() =~= lua_values(out@));
            return Ok(out);
        }
        match read_lua_item(bytes, pos) {
            Err(e) => {
                return Err(e);
            },
            Ok((p, next)) => {
                let ghost pre = lua_values(out@);
                let ghost v = p@;
                out.push(p);
                proof {
                    assert(lua_values(out@) =~= pre.push(v));
                    match lua_parse(bytes@, next as int) {
                        Ok(rest) => {
                            assert(pre + (seq![v] + rest) =~= pre.push(v) + rest);
                        },
                        Err(_) => {},
                    }
                }
                pos = next;
            },
        }
    }
}

/// A parameter that reads back as itself: not an unsigned integer (written
/// as a signed one), not a short (written without its payload), and not a
/// string with a NUL inside.
pub open spec fn lua_round_trips(v: LuaValue) -> bool {
    match v {
        LuaValue::UInt32(_) => false,
        LuaValue::Short(_) => false,
        LuaValue::Str(s) => !encode_utf8(s).contains(0),
        _ => true,
    }
}

proof fn lemma_items_cons(v: LuaValue, rest: Seq<LuaValue>)
    ensures
        lua_items(seq![v] + rest) == lua_item(v) + lua_items(rest),
    decreases rest.len(),
{
    if rest.len() > 0 {
        lemma_items_cons(v, rest.drop_last());
        assert((seq![v] + rest).drop_last() =~= seq![v] + rest.drop_last());
        assert((seq![v] + rest).last() == rest.last());
        assert(lua_items(rest) == lua_items(rest.drop_last()) + lua_item(rest.last()));
        assert(lua_items(seq![v] + rest) == lua_items((seq![v] + rest).drop_last()) + lua_item(
            (seq![v] + rest).last(),
        ));
        assert(lua_item(v) + lua_items(rest.drop_last()) + lua_item(rest.last()) =~= lua_item(v)
            + (lua_items(rest.drop_last()) + lua_item(rest.last())));
    } else {
        assert(seq![v] + rest =~= seq![v]);
        assert(lua_items(Seq::<LuaValue>::empty()) == Seq::<u8>::empty());
        assert(rest =~= Seq::<LuaValue>::empty());
        assert(lua_items(seq![v]) == lua_items(seq![v].drop_last()) + lua_item(seq![v].last()));
        assert(seq![v].drop_last() =~= Seq::<LuaValue>::empty());
        assert(lua_item(v) + Seq::<u8>::empty() =~= lua_item(v));
        assert(Seq::<u8>::empty() + lua_item(v) =~= lua_item(v));
    }
}

proof fn lemma_u32_at_shift(b: Seq<u8>, p: int, w: u32)
    requires
        0 <= p,
        p + 4 <= b.len(),
        b.subrange(p, p + 4) == u32_be(w),
    ensures
        u32_be_at(b, p) == w,
{
    lemma_u32_be_roundtrip(w);
    let e = u32_be(w);
    assert(b[p] == e[0] && b[p + 1] == e[1] && b[p + 2] == e[2] && b[p + 3] == e[3]) by {
        assert(b.subrange(p, p + 4)[0] == b[p]);
        assert(b.subrange(p, p + 4)[1] == b[p + 1]);
        assert(b.subrange(p, p + 4)[2] == b[p + 2]);
        assert(b.subrange(p, p + 4)[3] == b[p + 3]);
    }
}

proof fn lemma_u64_at_shift(b: Seq<u8>, p: int, w: u64)
    requires
        0 <= p,
        p + 8 <= b.len(),
        b.subrange(p, p + 8) == u64_be(w),
    ensures
        u64_be_at(b, p) == w,
{
    lemma_u64_be_roundtrip(w);
    let e = u64_be(w);
    assert forall|k: int| 0 <= k < 8 implies b[p + k] == e[k] by {
        assert(b.subrange(p, p + 8)[k] == b[p + k]);
    }
    assert(u64_be_at(b, p) == u64_be_at(e, 0));
}

proof fn lemma_item_at(b: Seq<u8>, pos: int, v: LuaValue)
    requires
        0 <= pos,
        lua_round_trips(v),
        pos + lua_item(v).len() < b.len(),
        b.subrange(pos, pos + lua_item(v).len()) == lua_item(v),
    ensures
        b[pos] != LUA_END,
        lua_item_at(b, pos) == Ok::<(LuaValue, int), LuaParamError>((v, pos + lua_item(v).len())),
{
    let item = lua_item(v);
    let p = pos + 1;
    let pay = lua_payload(v);
    assert(b[pos] == item[0]) by {
        assert(b.subrange(pos, pos + item.len())[0] == b[pos]);
    }
    assert(b.subrange(p, p + pay.len()) =~= pay) by {
        assert forall|k: int| 0 <= k < pay.len() implies b.subrange(p, p + pay.len())[k] == pay[k] by {
            assert(b.subrange(pos, pos + item.len())[k + 1] == b[p + k]);
            assert(item[k + 1] == pay[k]);
        }
    }
    match v {
        LuaValue::Int32(x) => {
            lemma_u32_at_shift(b, p, x as u32);
            assert((x as u32) as i32 == x) by (bit_vector);
        },
        LuaValue::Actor(x) => {
            lemma_u32_at_shift(b, p, x);
        },
        LuaValue::Type7 { actor_id, unknown, slot, inventory_type } => {
            assert(b.subrange(p, p + 4) =~= u32_be(actor_id)) by {
                assert forall|k: int| 0 <= k < 4 implies b.subrange(p, p + 4)[k] == u32_be(
                    actor_id,
                )[k] by {
                    assert(b.subrange(p, p + pay.len())[k] == b[p + k]);
                }
            }
            lemma_u32_at_shift(b, p, actor_id);
            assert(b.subrange(p, p + pay.len())[4] == b[p + 4]);
            assert(b.subrange(p, p + pay.len())[5] == b[p + 5]);
            assert(b.subrange(p, p + pay.len())[6] == b[p + 6]);
        },
        LuaValue::Type9 { item1, item2 } => {
            assert(b.subrange(p, p + 8) =~= u64_be(item1)) by {
                assert forall|k: int| 0 <= k < 8 implies b.subrange(p, p + 8)[k] == u64_be(
                    item1,
                )[k] by {
                    assert(b.subrange(p, p + pay.len())[k] == b[p + k]);
                }
            }
            assert(b.subrange(p + 8, p + 16) =~= u64_be(item2)) by {
                assert forall|k: int| 0 <= k < 8 implies b.subrange(p + 8, p + 16)[k] == u64_be(
                    item2,
                )[k] by {
                    assert(b.subrange(p, p + pay.len())[k + 8] == b[p + 8 + k]);
                }
            }
            lemma_u64_at_shift(b, p, item1);
            lemma_u64_at_shift(b, p + 8, item2);
        },
        LuaValue::Byte(x) => {
            assert(b.subrange(p, p + pay.len())[0] == b[p]);
        },
        LuaValue::Str(st) => {
            let enc = encode_utf8(st);
            let e = p + enc.len();
            assert forall|i: int| p <= i < e implies b[i] != 0 by {
                assert(b.subrange(p, p + pay.len())[i - p] == b[i]);
                assert(pay[i - p] == enc[i - p]);
                assert(enc.contains(enc[i - p]));
            }
            assert(b[e] == 0) by {
                assert(b.subrange(p, p + pay.len())[enc.len() as int] == b[e]);
            }
            lemma_first_zero_from(b, p, e);
            assert(b.subrange(p, e) =~= enc) by {
                assert forall|k: int| 0 <= k < enc.len() implies b.subrange(p, e)[k] == enc[k] by {
                    assert(b.subrange(p, p + pay.len())[k] == b[p + k]);
                }
            }
            vstd::utf8::encode_utf8_valid_utf8(st);
            vstd::utf8::encode_utf8_decode_utf8(st);
        },
        _ => {},
    }
}

proof fn lemma_parse_encoded(pre: Seq<u8>, vs: Seq<LuaValue>)
    requires
        forall|i: int| 0 <= i < vs.len() ==> lua_round_trips(#[trigger] vs[i]),
    ensures
        lua_parse(pre + lua_encoded(vs), pre.len() as int) == Ok::<Seq<LuaValue>, LuaParamError>(vs),
    decreases vs.len(),
{
    let b = pre + lua_encoded(vs);
    if vs.len() == 0 {
        assert(lua_items(vs) =~= Seq::<u8>::empty());
        assert(b[pre.len() as int] == LUA_END);
        assert(vs =~= Seq::<LuaValue>::empty());
    } else {
        let v = vs[0];
        let rest = vs.drop_first();
        assert(vs =~= seq![v] + rest);
        lemma_items_cons(v, rest);
        let pre2 = pre + lua_item(v);
        assert(b =~= pre2 + lua_encoded(rest));
        assert forall|i: int| 0 <= i < rest.len() implies lua_round_trips(#[trigger] rest[i]) by {
            assert(rest[i] == vs[i + 1]);
        }
        lemma_parse_encoded(pre2, rest);
        let pos = pre.len() as int;
        assert(b.subrange(pos, pos + lua_item(v).len()) =~= lua_item(v));
        lemma_item_at(b, pos, v);
        assert(seq![v] + rest =~= vs);
    }
}

/// Reading what was written gives back the parameters, for parameter lists
/// in which every parameter reads back as itself (see
/// [`lua_round_trips`]).
pub proof fn lemma_lua_roundtrip(vs: Seq<LuaValue>)
    requires
        forall|i: int| 0 <= i < vs.len() ==> lua_round_trips(#[trigger] vs[i]),
    ensures
        lua_parse(lua_encoded(vs), 0) == Ok::<Seq<LuaValue>, LuaParamError>(vs),
{
    lemma_parse_encoded(Seq::empty(), vs);
    assert(Seq::<u8>::empty() + lua_encoded(vs) =~= lua_encoded(vs));
}

/// The wire form of a one-parameter list: the parameter's type byte (0x00
/// for both integer kinds, 0x02 a string, 0x03 true, 0x04 false, 0x05 nil,
/// 0x06 an actor, 0x07 an inventory slot, 0x09 an item pair, 0x0C a byte,
/// 0x1B a short), its big-endian payload (a string's UTF-8 bytes and a
/// zero; none for a short), then the end byte 0x0F.
pub proof fn lemma_lua_single_wire(v: LuaValue)
    ensures
        lua_encoded(seq![v]) == match v {
            LuaValue::Int32(x) => seq![0x00u8] + u32_be(x as u32) + seq![0x0Fu8],
            LuaValue::UInt32(x) => seq![0x00u8] + u32_be(x) + seq![0x0Fu8],
            LuaValue::Str(t) => seq![0x02u8] + encode_utf8(t) + seq![0x00u8, 0x0Fu8],
            LuaValue::True => seq![0x03u8, 0x0Fu8],
            LuaValue::False => seq![0x04u8, 0x0Fu8],
            LuaValue::Nil => seq![0x05u8, 0x0Fu8],
            LuaValue::Actor(x) => seq![0x06u8] + u32_be(x) + seq![0x0Fu8],
            LuaValue::Type7 { actor_id, unknown, slot, inventory_type } => seq![0x07u8] + u32_be(
                actor_id,
            ) + seq![unknown, slot, inventory_type, 0x0Fu8],
            LuaValue::Type9 { item1, item2 } => seq![0x09u8] + u64_be(item1) + u64_be(item2) + seq![
                0x0Fu8,
            ],
            LuaValue::Byte(b) => seq![0x0Cu8, b, 0x0Fu8],
            LuaValue::Short(_) => seq![0x1Bu8, 0x0Fu8],
        },
{
    assert(seq![v].drop_last() =~= Seq::<LuaValue>::empty());
    assert(lua_items(seq![v]) == lua_items(Seq::<LuaValue>::empty()) + lua_item(v));
    assert(lua_items(seq![v]) =~= lua_item(v));
    match v {
        LuaValue::Int32(x) => {
            assert(lua_encoded(seq![v]) =~= seq![0x00u8] + u32_be(x as u32) + seq![0x0Fu8]);
        },
        LuaValue::UInt32(x) => {
            assert(lua_encoded(seq![v]) =~= seq![0x00u8] + u32_be(x) + seq![0x0Fu8]);
        },
        LuaValue::Str(t) => {
            assert(lua_encoded(seq![v]) =~= seq![0x02u8] + encode_utf8(t) + seq![0x00u8, 0x0Fu8]);
        },
        LuaValue::True => {
            assert(lua_encoded(seq![v]) =~= seq![0x03u8, 0x0Fu8]);
        },
        LuaValue::False => {
            assert(lua_encoded(seq![v]) =~= seq![0x04u8, 0x0Fu8]);
        },
        LuaValue::Nil => {
            assert(lua_encoded(seq![v]) =~= seq![0x05u8, 0x0Fu8]);
        },
        LuaValue::Actor(x) => {
            assert(lua_encoded(seq![v]) =~= seq![0x06u8] + u32_be(x) + seq![0x0Fu8]);
        },
        LuaValue::Type7 { actor_id, unknown, slot, inventory_type } => {
            assert(lua_encoded(seq![v]) =~= seq![0x07u8] + u32_be(actor_id) + seq![
                unknown,
                slot,
                inventory_type,
                0x0Fu8,
            ]);
        },
        LuaValue::Type9 { item1, item2 } => {
            assert(lua_encoded(seq![v]) =~= seq![0x09u8] + u64_be(item1) + u64_be(item2) + seq![
                0x0Fu8,
            ]);
        },
        LuaValue::Byte(b) => {
            assert(lua_encoded(seq![v]) =~= seq![0x0Cu8, b, 0x0Fu8]);
        },
        LuaValue::Short(_) => {
            assert(lua_encoded(seq![v]) =~= seq![0x1Bu8, 0x0Fu8]);
        },
    }
}

proof fn lemma_read_one(bytes: Seq<u8>, v: LuaValue, next: int)
    requires
        bytes[0] != 0x0F,
        0 < bytes.len(),
        lua_item_at(bytes, 0) == Ok::<(LuaValue, int), LuaParamError>((v, next)),
        0 < next < bytes.len(),
        bytes[next] == 0x0F,
    ensures
        lua_parse(bytes, 0) == Ok::<Seq<LuaValue>, LuaParamError>(seq![v]),
{
    assert(lua_parse(bytes, next) == Ok::<Seq<LuaValue>, LuaParamError>(Seq::empty()));
    assert(seq![v] + Seq::<LuaValue>::empty() =~= seq![v]);
}

/// Reading a one-parameter list whose type byte is 0x00, 0x01 or 0x06
/// gives a signed integer, an unsigned integer or an actor id, each read
/// big-endian from the next four bytes.
pub proof fn lemma_lua_read_words(b: Seq<u8>)
    requires
        b.len() == 4,
    ensures
        lua_parse(seq![0x00u8] + b + seq![0x0Fu8], 0) == Ok::<Seq<LuaValue>, LuaParamError>(
            seq![LuaValue::Int32(u32_be_at(b, 0) as i32)],
        ),
        lua_parse(seq![0x01u8] + b + seq![0x0Fu8], 0) == Ok::<Seq<LuaValue>, LuaParamError>(
            seq![LuaValue::UInt32(u32_be_at(b, 0))],
        ),
        lua_parse(seq![0x06u8] + b + seq![0x0Fu8], 0) == Ok::<Seq<LuaValue>, LuaParamError>(
            seq![LuaValue::Actor(u32_be_at(b, 0))],
        ),
{
    let s0 = seq![0x00u8] + b + seq![0x0Fu8];
    assert(s0[1] == b[0] && s0[2] == b[1] && s0[3] == b[2] && s0[4] == b[3] && s0[5] == 0x0F);
    lemma_read_one(s0, LuaValue::Int32(u32_be_at(b, 0) as i32), 5);
    let s1 = seq![0x01u8] + b + seq![0x0Fu8];
    assert(s1[1] == b[0] && s1[2] == b[1] && s1[3] == b[2] && s1[4] == b[3] && s1[5] == 0x0F);
    lemma_read_one(s1, LuaValue::UInt32(u32_be_at(b, 0)), 5);
    let s6 = seq![0x06u8] + b + seq![0x0Fu8];
    assert(s6[1] == b[0] && s6[2] == b[1] && s6[3] == b[2] && s6[4] == b[3] && s6[5] == 0x0F);
    lemma_read_one(s6, LuaValue::Actor(u32_be_at(b, 0)), 5);
}

/// Reading a one-parameter list whose type byte is 0x07 gives an
/// inventory slot (a big-endian actor id, then three bytes), and 0x09 two
/// big-endian 64-bit items.
pub proof fn lemma_lua_read_wide(b: Seq<u8>)
    requires
        b.len() == 16,
    ensures
        lua_parse(seq![0x07u8] + b.take(7) + seq![0x0Fu8], 0) == Ok::<Seq<LuaValue>, LuaParamError>(
            seq![
                LuaValue::Type7 {
                    actor_id: u32_be_at(b, 0),
                    unknown: b[4],
                    slot: b[5],
                    inventory_type: b[6],
                },
            ],
        ),
        lua_parse(seq![0x09u8] + b + seq![0x0Fu8], 0) == Ok::<Seq<LuaValue>, LuaParamError>(
            seq![LuaValue::Type9 { item1: u64_be_at(b, 0), item2: u64_be_at(b, 8) }],
        ),
{
    let s7 = seq![0x07u8] + b.take(7) + seq![0x0Fu8];
    assert(s7[1] == b[0] && s7[2] == b[1] && s7[3] == b[2] && s7[4] == b[3]);
    assert(s7[5] == b[4] && s7[6] == b[5] && s7[7] == b[6] && s7[8] == 0x0F);
    lemma_read_one(
        s7,
        LuaValue::Type7 { actor_id: u32_be_at(b, 0), unknown: b[4], slot: b[5], inventory_type: b[6] },
        8,
    );
    let s9 = seq![0x09u8] + b + seq![0x0Fu8];
    assert forall|i: int| 0 <= i < 16 implies s9[1 + i] == b[i] by {}
    assert(u32_be_at(s9, 1) == u32_be_at(b, 0) && u32_be_at(s9, 5) == u32_be_at(b, 4));
    assert(u32_be_at(s9, 9) == u32_be_at(b, 8) && u32_be_at(s9, 13) == u32_be_at(b, 12));
    assert(s9[17] == 0x0F);
    lemma_read_one(s9, LuaValue::Type9 { item1: u64_be_at(b, 0), item2: u64_be_at(b, 8) }, 17);
}

/// Reading a one-parameter list whose type byte is 0x0C gives a byte, 0x1B
/// a big-endian short, 0x03 / 0x04 / 0x05 true, false and nil; the end
/// byte 0x0F alone reads as no parameters, and any other type byte is
/// refused as unknown.
pub proof fn lemma_lua_read_small(c: u8, b0: u8, b1: u8, rest: Seq<u8>)
    ensures
        lua_parse(seq![0x0Cu8, b0, 0x0Fu8], 0) == Ok::<Seq<LuaValue>, LuaParamError>(
            seq![LuaValue::Byte(b0)],
        ),
        lua_parse(seq![0x1Bu8, b0, b1, 0x0Fu8], 0) == Ok::<Seq<LuaValue>, LuaParamError>(
            seq![LuaValue::Short(u16_be_at(seq![b0, b1], 0))],
        ),
        lua_parse(seq![0x03u8, 0x0Fu8], 0) == Ok::<Seq<LuaValue>, LuaParamError>(seq![LuaValue::True]),
        lua_parse(seq![0x04u8, 0x0Fu8], 0) == Ok::<Seq<LuaValue>, LuaParamError>(seq![LuaValue::False]),
        lua_parse(seq![0x05u8, 0x0Fu8], 0) == Ok::<Seq<LuaValue>, LuaParamError>(seq![LuaValue::Nil]),
        lua_parse(seq![0x0Fu8] + rest, 0) == Ok::<Seq<LuaValue>, LuaParamError>(Seq::empty()),
        !(c == 0x00 || c == 0x01 || c == 0x02 || c == 0x03 || c == 0x04 || c == 0x05 || c == 0x06
            || c == 0x07 || c == 0x09 || c == 0x0C || c == 0x1B || c == 0x0F) ==> lua_parse(
            seq![c] + rest,
            0,
        ) == Err::<Seq<LuaValue>, LuaParamError>(LuaParamError::UnknownType(c)),
{
    lemma_read_one(seq![0x0Cu8, b0, 0x0Fu8], LuaValue::Byte(b0), 2);
    lemma_read_one(seq![0x1Bu8, b0, b1, 0x0Fu8], LuaValue::Short(u16_be_at(seq![b0, b1], 0)), 3);
    lemma_read_one(seq![0x03u8, 0x0Fu8], LuaValue::True, 1);
    lemma_read_one(seq![0x04u8, 0x0Fu8], LuaValue::False, 1);
    lemma_read_one(seq![0x05u8, 0x0Fu8], LuaValue::Nil, 1);
    assert((seq![0x0Fu8] + rest)[0] == 0x0F);
    assert((seq![c] + rest)[0] == c);
}

/// `0x` and the uppercase hex digits of `v`.
pub open spec fn hex_text(v: nat) -> Seq<char> {
    seq!['0', 'x'] + hex_digits(v, true)
}

/// How a parameter is shown in a log: numbers in hex (signed integers as
/// their two's-complement bits), strings quoted, booleans and nil by name.
pub open spec fn lua_param_text(v: LuaValue) -> Seq<char> {
    match v {
        LuaValue::Int32(x) => hex_text((x as u32) as nat),
        LuaValue::UInt32(x) => hex_text(x as nat),
        LuaValue::Str(s) => seq!['"'] + s + seq!['"'],
        LuaValue::True => "true"@,
        LuaValue::False => "false"@,
        LuaValue::Nil => "nil"@,
        LuaValue::Actor(x) => hex_text(x as nat),
        LuaValue::Type7 { actor_id, unknown, slot, inventory_type } => "Type7 Param: ("@ + hex_text(
            actor_id as nat,
        ) + ", "@ + hex_text(unknown as nat) + ", "@ + hex_text(slot as nat) + ", "@ + hex_text(
            inventory_type as nat,
        ) + ")"@,
        LuaValue::Type9 { item1, item2 } => "Type9 Param: ("@ + hex_text(item1 as nat) + ", "@
            + hex_text(item2 as nat) + ")"@,
        LuaValue::Byte(b) => hex_text(b as nat),
        LuaValue::Short(x) => hex_text(x as nat),
    }
}

/// Every parameter's text, separated by `", "`.
pub open spec fn lua_dump_text(vs: Seq<LuaValue>) -> Seq<char>
    decreases vs.len(),
{
    if vs.len() == 0 {
        Seq::empty()
    } else if vs.len() == 1 {
        lua_param_text(vs[0])
    } else {
        lua_dump_text(vs.drop_last()) + ", "@ + lua_param_text(vs.last())
    }
}

fn push_hex_text(out: &mut Vec<char>, v: u64)
    ensures
        final(out)@ == old(out)@ + hex_text(v as nat),
{
    let ghost start = out@;
    out.push('0');
    out.push('x');
    push_hex(out, v, 1, true);
    assert(out@ =~= start + hex_text(v as nat));
}

fn push_param_text(out: &mut Vec<char>, p: &LuaParam)
    ensures
        final(out)@ == old(out)@ + lua_param_text(p@),
{
    let ghost start = out@;
    match p {
        LuaParam::Int32(v) => push_hex_text(out, (*v as u32) as u64),
        LuaParam::UInt32(v) => push_hex_text(out, *v as u64),
        LuaParam::String(s) => {
            out.push('"');
            push_str_chars(out, s.as_str());
            out.push('"');
        },
        LuaParam::True => push_str_chars(out, "true"),
        LuaParam::False => push_str_chars(out, "false"),
        LuaParam::Nil => push_str_chars(out, "nil"),
        LuaParam::Actor(v) => push_hex_text(out, *v as u64),
        LuaParam::Type7 { actor_id, unknown, slot, inventory_type } => {
            push_str_chars(out, "Type7 Param: (");
            push_hex_text(out, *actor_id as u64);
            push_str_chars(out, ", ");
            push_hex_text(out, *unknown as u64);
            push_str_chars(out, ", ");
            push_hex_text(out, *slot as u64);
            push_str_chars(out, ", ");
            push_hex_text(out, *inventory_type as u64);
            push_str_chars(out, ")");
        },
        LuaParam::Type9 { item1, item2 } => {
            push_str_chars(out, "Type9 Param: (");
            push_hex_text(out, *item1);
            push_str_chars(out, ", ");
            push_hex_text(out, *item2);
            push_str_chars(out, ")");
        },
        LuaParam::Byte(b) => push_hex_text(out, *b as u64),
        LuaParam::Short(v) => push_hex_text(out, *v as u64),
    }
    assert(out@ =~= start + lua_param_text(p@));
}

/// The log text of a parameter list (see [`lua_dump_text`]).
pub fn dump_params(params: &[LuaParam]) -> (r: String)
    ensures
        r@ == lua_dump_text(lua_values(params@)),
{
    let mut v: Vec<char> = Vec::new();
    let mut i: usize = 0;
    while i < params.len()
        invariant
            i <= params@.len(),
            v@ == lua_dump_text(lua_values(params@.take(i as int))),
        decreases params@.len() - i,
    {
        let ghost before = v@;
        if i > 0 {
            push_str_chars(&mut v, ", ");
        }
        push_param_text(&mut v, &params[i]);
        proof {
            let vs = lua_values(params@.take(i as int + 1));
            assert(vs.drop_last() =~= lua_values(params@.take(i as int)));
            assert(vs.last() == params@[i as int]@);
            if i == 0 {
                assert(vs.len() == 1);
                assert(before =~= Seq::<char>::empty());
            }
        }
        i = i + 1;
        assert(v@ =~= lua_dump_text(lua_values(params@.take(i as int))));
    }
    assert(params@.take(params@.len() as int) =~= params@);
    let mut out = String::new();
    push_chars(&mut out, &v, v.len());
    assert(v@.take(v@.len() as int) =~= v@);
    out
}
} // verus!
