//! Replies the lobby sends: errors, the paged world, account, retainer,
//! import and character lists, the character-selection confirmation, and
//! the character creator's answer. Every reply is a game-message subpacket
//! from and to the lobby's actor id.

use vstd::prelude::*;
use vstd::string::StringSliceAdditionalSpecFns;
use vstd::utf8::encode_utf8;
use crate::bytes::push_u16_le;
use crate::bytes::push_u32_le;
use crate::bytes::push_u64_le;
use crate::bytes::u16_le;
use crate::bytes::u32_le;
use crate::bytes::u64_le;
use crate::lobby::chara_info::zeros;
use crate::lobby::chara_info::build_for_chara_list;
use crate::lobby::chara_info::chara_blob;
use crate::lobby::chara_info::chara_list_text;
use crate::lobby::chara_info::blob_capacity;
use crate::lobby::chara_info::padded_blob;
use crate::lobby::data::Account;
use crate::lobby::data::Appearance;
use crate::lobby::data::Character;
use crate::lobby::data::Retainer;
use crate::lobby::data::World;
use crate::text::chars_of;
use crate::subpacket::GAMEMESSAGE_SIZE;
use crate::subpacket::SUBPACKET_SIZE;
use crate::subpacket::SUBPACKET_TYPE_GAMEMESSAGE;
use crate::subpacket::SubPacket;

verus! {

/// The lobby's actor id: source and target of every lobby reply.
pub const LOBBY_TARGET_ID: u32 = 0xe0006868;

/// `s` is the lobby's game-message subpacket `opcode` carrying `data`.
pub open spec fn is_lobby_subpacket(s: SubPacket, opcode: u16, data: Seq<u8>) -> bool {
    &&& s.data@ == data
    &&& s.header.source_id == LOBBY_TARGET_ID
    &&& s.header.target_id == LOBBY_TARGET_ID
    &&& s.header.unknown1 == 0
    &&& s.header.subpacket_type == SUBPACKET_TYPE_GAMEMESSAGE
    &&& s.header.subpacket_size == (SUBPACKET_SIZE + GAMEMESSAGE_SIZE + data.len()) as u16
    &&& s.game_message.opcode == opcode
    &&& s.game_message.unknown4 == 0x14
    &&& s.game_message.unknown5 == 0
    &&& s.game_message.unknown6 == 0
}

fn subpacket_for(opcode: u16, data: Vec<u8>) -> (r: SubPacket)
    requires
        data@.len() <= 0x1000,
    ensures
        is_lobby_subpacket(r, opcode, data@),
{
    let ghost d = data@;
    let mut sub = SubPacket::new(opcode, LOBBY_TARGET_ID, data);
    sub.set_target_id(LOBBY_TARGET_ID);
    assert(((SUBPACKET_SIZE + d.len()) as u16) + GAMEMESSAGE_SIZE == SUBPACKET_SIZE
        + GAMEMESSAGE_SIZE + d.len());
    sub
}

/// `bytes` cut or zero-padded to `width`.
pub open spec fn padded(bytes: Seq<u8>, width: nat) -> Seq<u8> {
    if bytes.len() >= width {
        bytes.take(width as int)
    } else {
        bytes + zeros((width - bytes.len()) as nat)
    }
}

fn write_padded_ascii(out: &mut Vec<u8>, s: &str, width: usize)
    ensures
        final(out)@ == old(out)@ + padded(s.spec_bytes(), width as nat),
{
    let ghost start = out@;
    let bytes = s.as_bytes();
    let n = if bytes.len() < width {
        bytes.len()
    } else {
        width
    };
    let mut i: usize = 0;
    while i < n
        invariant
            i <= n <= bytes@.len(),
            n <= width,
            out@ == start + bytes@.take(i as int),
        decreases n - i,
    {
        out.push(bytes[i]);
        i = i + 1;
        assert(out@ =~= start + bytes@.take(i as int));
    }
    let mut k: usize = n;
    while k < width
        invariant
            n <= k <= width,
            out@ == start + bytes@.take(n as int) + zeros((k - n) as nat),
        decreases width - k,
    {
        out.push(0);
        k = k + 1;
        assert(out@ =~= start + bytes@.take(n as int) + zeros((k - n) as nat));
    }
    proof {
        if bytes@.len() < width {
            assert(bytes@.take(n as int) =~= bytes@);
        }
    }
    assert(out@ =~= start + padded(s.spec_bytes(), width as nat));
}

fn push_zeros(out: &mut Vec<u8>, n: usize)
    ensures
        final(out)@ == old(out)@ + zeros(n as nat),
{
    let ghost start = out@;
    let mut i: usize = 0;
    while i < n
        invariant
            i <= n,
            out@ == start + zeros(i as nat),
        decreases n - i,
    {
        out.push(0);
        i = i + 1;
        assert(out@ =~= start + zeros(i as nat));
    }
}

/// The list-position byte of page `page` with `max` entries per page.
pub open spec fn list_tracker(page: nat, max: nat) -> u8 {
    (2 * ((max * page) % 128)) as u8
}

/// The 16-byte header of a list page: the request sequence, the position
/// byte (plus one on the last page), the number of entries on the page,
/// and three zero bytes.
pub open spec fn list_header(sequence: u64, page: nat, max: nat, remaining: nat) -> Seq<u8> {
    u64_le(sequence) + (if remaining <= max {
        seq![(list_tracker(page, max) + 1) as u8] + u32_le(remaining as u32)
    } else {
        seq![list_tracker(page, max)] + u32_le(max as u32)
    }) + seq![0u8] + u16_le(0)
}

fn write_list_header(out: &mut Vec<u8>, sequence: u64, page: usize, max: usize, remaining: usize)
    requires
        1 <= max <= 16,
    ensures
        final(out)@ == old(out)@ + list_header(sequence, page as nat, max as nat, remaining as nat),
{
    let ghost start = out@;
    push_u64_le(out, sequence);
    let page_low = page % 128;
    assert(max * page_low <= 16 * 128) by (nonlinear_arith)
        requires
            max <= 16,
            page_low < 128,
    ;
    proof {
        vstd::arithmetic::div_mod::lemma_mul_mod_noop_right(max as int, page as int, 128);
    }
    let tracker = (2 * ((max * page_low) % 128)) as u8;
    if remaining <= max {
        out.push(tracker + 1);
        push_u32_le(out, remaining as u32);
    } else {
        out.push(tracker);
        push_u32_le(out, max as u32);
    }
    out.push(0);
    push_u16_le(out, 0);
    assert(out@ =~= start + list_header(sequence, page as nat, max as nat, remaining as nat));
}

/// The bytes of a run of entries, one after another.
pub open spec fn joined(entries: Seq<Seq<u8>>) -> Seq<u8>
    decreases entries.len(),
{
    if entries.len() == 0 {
        Seq::empty()
    } else {
        joined(entries.drop_last()) + entries.last()
    }
}

/// Page `page` of a list of `entries`, `max` per page: the header, zeros
/// up to `start`, the page's entries, and zeros up to `capacity`.
pub open spec fn list_page(
    sequence: u64,
    page: nat,
    max: nat,
    entries: Seq<Seq<u8>>,
    capacity: nat,
    start: nat,
) -> Seq<u8> {
    let first = page * max;
    let last = if first + max <= entries.len() {
        first + max
    } else {
        entries.len() as nat
    };
    let body = list_header(sequence, page, max, (entries.len() - first) as nat) + zeros(
        (start - 16) as nat,
    ) + joined(entries.subrange(first as int, last as int));
    body + zeros((capacity - body.len()) as nat)
}

/// Every page of a list: one page per `max` entries, or for an empty list
/// one page of `empty_capacity` bytes with only a header.
pub open spec fn list_pages(
    sequence: u64,
    max: nat,
    entries: Seq<Seq<u8>>,
    capacity: nat,
    start: nat,
    empty_capacity: nat,
) -> Seq<Seq<u8>> {
    if entries.len() == 0 {
        seq![list_header(sequence, 0, max, 0) + zeros((empty_capacity - 16) as nat)]
    } else {
        Seq::new(
            ((entries.len() + max - 1) / max as int) as nat,
            |p: int| list_page(sequence, p as nat, max, entries, capacity, start),
        )
    }
}

fn build_page(
    sequence: u64,
    page: usize,
    max: usize,
    entries: &Vec<Vec<u8>>,
    entry_len: usize,
    capacity: usize,
    start: usize,
) -> (r: Vec<u8>)
    requires
        1 <= max <= 16,
        16 <= start,
        start + max * entry_len <= capacity <= 0x1000,
        page * max < entries@.len(),
        forall|i: int| 0 <= i < entries@.len() ==> #[trigger] entries@[i]@.len() == entry_len,
    ensures
        r@.len() == capacity,
        r@ == list_page(
            sequence,
            page as nat,
            max as nat,
            entries@.map_values(|e: Vec<u8>| e@),
            capacity as nat,
            start as nat,
        ),
{
    let ghost es = entries@.map_values(|e: Vec<u8>| e@);
    let n = entries.len();
    let first = page * max;
    let last = if max <= n - first {
        first + max
    } else {
        n
    };
    assert(page <= page * max) by (nonlinear_arith)
        requires
            max >= 1,
    ;
    let mut out: Vec<u8> = Vec::new();
    write_list_header(&mut out, sequence, page, max, n - first);
    push_zeros(&mut out, start - 16);
    let ghost head = out@;
    assert(head.len() == start);
    let mut k = first;
    while k < last
        invariant
            first <= k <= last <= n,
            last - first <= max,
            n == entries@.len(),
            es == entries@.map_values(|e: Vec<u8>| e@),
            forall|i: int| 0 <= i < entries@.len() ==> #[trigger] entries@[i]@.len() == entry_len,
            out@ == head + joined(es.subrange(first as int, k as int)),
            out@.len() == start + (k - first) * entry_len,
            start + max * entry_len <= capacity,
        decreases last - k,
    {
        let e = &entries[k];
        let mut j: usize = 0;
        let ghost before = out@;
        while j < e.len()
            invariant
                j <= e@.len(),
                out@ == before + e@.take(j as int),
            decreases e@.len() - j,
        {
            out.push(e[j]);
            j = j + 1;
            assert(out@ =~= before + e@.take(j as int));
        }
        proof {
            assert(e@.take(e@.len() as int) =~= e@);
            let sub = es.subrange(first as int, k + 1);
            assert(sub.drop_last() =~= es.subrange(first as int, k as int));
            assert(sub.last() == e@);
            assert((k + 1 - first) * entry_len == (k - first) * entry_len + entry_len)
                by (nonlinear_arith);
            assert((k + 1 - first) * entry_len <= max * entry_len) by (nonlinear_arith)
                requires
                    k + 1 - first <= max,
            ;
        }
        k = k + 1;
    }
    assert((last - first) * entry_len <= max * entry_len) by (nonlinear_arith)
        requires
            last - first <= max,
    ;
    let pad = capacity - out.len();
    push_zeros(&mut out, pad);
    out
}

fn build_pages(
    sequence: u64,
    max: usize,
    entries: &Vec<Vec<u8>>,
    entry_len: usize,
    capacity: usize,
    start: usize,
    empty_capacity: usize,
) -> (r: Vec<Vec<u8>>)
    requires
        1 <= max <= 16,
        16 <= start,
        start + max * entry_len <= capacity <= 0x1000,
        16 <= empty_capacity <= 0x1000,
        forall|i: int| 0 <= i < entries@.len() ==> #[trigger] entries@[i]@.len() == entry_len,
    ensures
        r@.map_values(|p: Vec<u8>| p@) == list_pages(
            sequence,
            max as nat,
            entries@.map_values(|e: Vec<u8>| e@),
            capacity as nat,
            start as nat,
            empty_capacity as nat,
        ),
        forall|i: int| 0 <= i < r@.len() ==> #[trigger] r@[i]@.len() <= 0x1000,
{
    let ghost es = entries@.map_values(|e: Vec<u8>| e@);
    let n = entries.len();
    let mut pages: Vec<Vec<u8>> = Vec::new();
    if n == 0 {
        let mut out: Vec<u8> = Vec::new();
        write_list_header(&mut out, sequence, 0, max, 0);
        push_zeros(&mut out, empty_capacity - 16);
        pages.push(out);
        assert(pages@.map_values(|p: Vec<u8>| p@) =~= list_pages(
            sequence,
            max as nat,
            es,
            capacity as nat,
            start as nat,
            empty_capacity as nat,
        ));
        return pages;
    }
    let count = (n - 1) / max + 1;
    proof {
        vstd::arithmetic::div_mod::lemma_div_plus_one((n - 1) as int, max as int);
    }
    assert(count == (n + max - 1) / (max as int));
    let mut p: usize = 0;
    while p < count
        invariant
            count == (n + max - 1) / (max as int),
            n == entries@.len(),
            n > 0,
            1 <= max <= 16,
            16 <= start,
            start + max * entry_len <= capacity <= 0x1000,
            es == entries@.map_values(|e: Vec<u8>| e@),
            forall|i: int| 0 <= i < entries@.len() ==> #[trigger] entries@[i]@.len() == entry_len,
            p <= count,
            pages@.len() == p,
            forall|i: int| 0 <= i < p ==> #[trigger] pages@[i]@ == list_page(
                sequence,
                i as nat,
                max as nat,
                es,
                capacity as nat,
                start as nat,
            ),
            forall|i: int| 0 <= i < p ==> #[trigger] pages@[i]@.len() <= 0x1000,
        decreases count - p,
    {
        assert(p * max < n) by (nonlinear_arith)
            requires
                p < count,
                count == (n + max - 1) / (max as int),
                max >= 1,
        ;
        let page = build_page(sequence, p, max, entries, entry_len, capacity, start);
        proof {
            let first = p * max;
            let last = if first + max <= n {
                first + max
            } else {
                n as int
            };
            assert(es.subrange(first as int, last) =~= es.subrange(first as int, last));
        }
        pages.push(page);
        p = p + 1;
    }
    assert(pages@.map_values(|p: Vec<u8>| p@) =~= list_pages(
        sequence,
        max as nat,
        es,
        capacity as nat,
        start as nat,
        empty_capacity as nat,
    ));
    pages
}


/// Each page as a lobby subpacket with `opcode`.
pub open spec fn are_lobby_pages(r: Seq<SubPacket>, opcode: u16, pages: Seq<Seq<u8>>) -> bool {
    &&& r.len() == pages.len()
    &&& forall|i: int| 0 <= i < r.len() ==> is_lobby_subpacket(#[trigger] r[i], opcode, pages[i])
}

fn to_subpackets(opcode: u16, pages: Vec<Vec<u8>>) -> (r: Vec<SubPacket>)
    requires
        forall|i: int| 0 <= i < pages@.len() ==> #[trigger] pages@[i]@.len() <= 0x1000,
    ensures
        are_lobby_pages(r@, opcode, pages@.map_values(|p: Vec<u8>| p@)),
{
    let ghost ps = pages@.map_values(|p: Vec<u8>| p@);
    let mut r: Vec<SubPacket> = Vec::new();
    let mut pages = pages;
    let ghost all = pages@;
    let mut k: usize = 0;
    let n = pages.len();
    let mut rest: Vec<Vec<u8>> = Vec::new();
    while pages.len() > 0
        invariant
            n == all.len(),
            forall|i: int| 0 <= i < all.len() ==> #[trigger] all[i]@.len() <= 0x1000,
            ps == all.map_values(|p: Vec<u8>| p@),
            pages@ == all.take(pages@.len() as int),
            r@.len() + pages@.len() == n,
            forall|i: int|
                0 <= i < r@.len() ==> is_lobby_subpacket(
                    #[trigger] r@[i],
                    opcode,
                    ps[n - 1 - i],
                ),
        decreases pages@.len(),
    {
        let page = pages.pop().unwrap();
        assert(pages@ =~= all.take(pages@.len() as int));
        r.push(subpacket_for(opcode, page));
    }
    let mut out: Vec<SubPacket> = Vec::new();
    while r.len() > 0
        invariant
            r@.len() + out@.len() == n,
            forall|i: int|
                0 <= i < r@.len() ==> is_lobby_subpacket(
                    #[trigger] r@[i],
                    opcode,
                    ps[n - 1 - i],
                ),
            forall|i: int| 0 <= i < out@.len() ==> is_lobby_subpacket(#[trigger] out@[i], opcode, ps[i]),
            ps.len() == n,
        decreases r@.len(),
    {
        let ghost before = r@;
        let s = r.pop().unwrap();
        assert(is_lobby_subpacket(before[before.len() - 1], opcode, ps[n - before.len()]));
        out.push(s);
    }
    out
}

/// The bytes of one world in the world list.
pub open spec fn world_entry(id: u16, list_position: u16, population: u16, name: Seq<char>) -> Seq<
    u8,
> {
    u16_le(id) + u16_le(list_position) + u32_le(population as u32) + u64_le(0) + padded(
        encode_utf8(name),
        64,
    )
}

/// The world list, six worlds per page (opcode 0x15).
pub fn world_list_packets(sequence: u64, worlds: &[World]) -> (r: Vec<SubPacket>)
    requires
    ensures
        are_lobby_pages(
            r@,
            0x15,
            list_pages(
                sequence,
                6,
                worlds@.map_values(
                    |w: World| world_entry(w.id, w.list_position, w.population, w.name@),
                ),
                0x210,
                0x10,
                0x210,
            ),
        ),
{
    let mut entries: Vec<Vec<u8>> = Vec::new();
    let mut i: usize = 0;
    while i < worlds.len()
        invariant
            i <= worlds@.len(),
            entries@.len() == i,
            forall|j: int| 0 <= j < i ==> (#[trigger] entries@[j])@ == world_entry(
                worlds@[j].id,
                worlds@[j].list_position,
                worlds@[j].population,
                worlds@[j].name@,
            ),
            forall|j: int| 0 <= j < i ==> (#[trigger] entries@[j])@.len() == 80,
        decreases worlds@.len() - i,
    {
        let w = &worlds[i];
        let mut e: Vec<u8> = Vec::new();
        push_u16_le(&mut e, w.id);
        push_u16_le(&mut e, w.list_position);
        push_u32_le(&mut e, w.population as u32);
        push_u64_le(&mut e, 0);
        write_padded_ascii(&mut e, w.name.as_str(), 64);
        assert(e@ =~= world_entry(w.id, w.list_position, w.population, w.name@));
        entries.push(e);
        i = i + 1;
    }
    assert(entries@.map_values(|e: Vec<u8>| e@) =~= worlds@.map_values(
        |w: World| world_entry(w.id, w.list_position, w.population, w.name@),
    ));
    let pages = build_pages(sequence, 6, &entries, 80, 0x210, 0x10, 0x210);
    to_subpackets(0x15, pages)
}

/// The bytes of one account in the account list.
pub open spec fn account_entry(id: u32, name: Seq<char>) -> Seq<u8> {
    u32_le(id) + u32_le(0) + padded(encode_utf8(name), 0x40)
}

/// The account list, eight accounts per 0x280-byte page (opcode 0x0C); an
/// empty list is one 0x210-byte page.
pub fn account_list_packets(sequence: u64, accounts: &[Account]) -> (r: Vec<SubPacket>)
    requires
    ensures
        are_lobby_pages(
            r@,
            0x0C,
            list_pages(
                sequence,
                8,
                accounts@.map_values(|a: Account| account_entry(a.id, a.name@)),
                0x280,
                0x10,
                0x210,
            ),
        ),
{
    let mut entries: Vec<Vec<u8>> = Vec::new();
    let mut i: usize = 0;
    while i < accounts.len()
        invariant
            i <= accounts@.len(),
            entries@.len() == i,
            forall|j: int| 0 <= j < i ==> (#[trigger] entries@[j])@ == account_entry(
                accounts@[j].id,
                accounts@[j].name@,
            ),
            forall|j: int| 0 <= j < i ==> (#[trigger] entries@[j])@.len() == 72,
        decreases accounts@.len() - i,
    {
        let a = &accounts[i];
        let mut e: Vec<u8> = Vec::new();
        push_u32_le(&mut e, a.id);
        push_u32_le(&mut e, 0);
        write_padded_ascii(&mut e, a.name.as_str(), 0x40);
        assert(e@ =~= account_entry(a.id, a.name@));
        entries.push(e);
        i = i + 1;
    }
    assert(entries@.map_values(|e: Vec<u8>| e@) =~= accounts@.map_values(
        |a: Account| account_entry(a.id, a.name@),
    ));
    let pages = build_pages(sequence, 8, &entries, 72, 0x280, 0x10, 0x210);
    to_subpackets(0x0C, pages)
}

/// The bytes of the retainer at list index `index`.
pub open spec fn retainer_entry(index: int, r: Retainer) -> Seq<u8> {
    u32_le(r.id) + u32_le(r.character_id) + u16_le(index as u16) + u16_le(
        if r.do_rename {
            4
        } else {
            0
        },
    ) + u32_le(0) + padded(encode_utf8(r.name@), 0x20)
}

/// The retainer list, nine retainers per page after a 12-byte gap (opcode
/// 0x17).
pub fn retainer_list_packets(sequence: u64, retainers: &[Retainer]) -> (r: Vec<SubPacket>)
    requires
    ensures
        are_lobby_pages(
            r@,
            0x17,
            list_pages(
                sequence,
                9,
                retainers@.map_values(|x: Retainer| x).map(|i: int, x: Retainer| retainer_entry(i, x)),
                0x210,
                0x1C,
                0x210,
            ),
        ),
{
    let mut entries: Vec<Vec<u8>> = Vec::new();
    let mut i: usize = 0;
    while i < retainers.len()
        invariant
            i <= retainers@.len(),
                entries@.len() == i,
            forall|j: int| 0 <= j < i ==> (#[trigger] entries@[j])@ == retainer_entry(j, retainers@[j]),
            forall|j: int| 0 <= j < i ==> (#[trigger] entries@[j])@.len() == 48,
        decreases retainers@.len() - i,
    {
        let x = &retainers[i];
        let mut e: Vec<u8> = Vec::new();
        push_u32_le(&mut e, x.id);
        push_u32_le(&mut e, x.character_id);
        push_u16_le(&mut e, i as u16);
        push_u16_le(
            &mut e,
            if x.do_rename {
                0x04
            } else {
                0x00
            },
        );
        push_u32_le(&mut e, 0);
        write_padded_ascii(&mut e, x.name.as_str(), 0x20);
        assert(e@ =~= retainer_entry(i as int, *x));
        entries.push(e);
        i = i + 1;
    }
    assert(entries@.map_values(|e: Vec<u8>| e@) =~= retainers@.map_values(|x: Retainer| x).map(
        |i: int, x: Retainer| retainer_entry(i, x),
    ));
    let pages = build_pages(sequence, 9, &entries, 48, 0x210, 0x1C, 0x210);
    to_subpackets(0x17, pages)
}

/// The name an import entry shows: the name itself when it has a space,
/// otherwise the name with `" Last"` after it.
pub open spec fn import_full_name(name: Seq<char>) -> Seq<char> {
    if name.contains(' ') {
        name
    } else {
        name + seq![' ', 'L', 'a', 's', 't']
    }
}

/// The bytes of the import entry at list index `index`.
pub open spec fn import_entry(index: int, name: Seq<char>) -> Seq<u8> {
    u32_le(0) + u32_le(index as u32) + padded(encode_utf8(import_full_name(name)), 0x20)
}

fn full_import_name(name: &String) -> (r: String)
    ensures
        r@ == import_full_name(name@),
{
    let chars = chars_of(name.as_str());
    let mut has_space = false;
    let mut k: usize = 0;
    while k < chars.len()
        invariant
            k <= chars@.len(),
            chars@ == name@,
            has_space == exists|j: int| 0 <= j < k && chars@[j] == ' ',
        decreases chars@.len() - k,
    {
        if chars[k] == ' ' {
            has_space = true;
        }
        k = k + 1;
    }
    let mut full = name.clone();
    if !has_space {
        full.push(' ');
        full.push('L');
        full.push('a');
        full.push('s');
        full.push('t');
        assert(full@ =~= name@ + seq![' ', 'L', 'a', 's', 't']);
        assert(!name@.contains(' '));
    } else {
        proof {
            let j = choose|j: int| 0 <= j < k && chars@[j] == ' ';
            assert(name@[j] == ' ');
        }
    }
    full
}

/// The import list, twelve names per page (opcode 0x16).
pub fn import_list_packets(sequence: u64, names: &[String]) -> (r: Vec<SubPacket>)
    requires
    ensures
        are_lobby_pages(
            r@,
            0x16,
            list_pages(
                sequence,
                12,
                names@.map(|i: int, n: String| import_entry(i, n@)),
                0x210,
                0x10,
                0x210,
            ),
        ),
{
    let mut entries: Vec<Vec<u8>> = Vec::new();
    let mut i: usize = 0;
    while i < names.len()
        invariant
            i <= names@.len(),
                entries@.len() == i,
            forall|j: int| 0 <= j < i ==> (#[trigger] entries@[j])@ == import_entry(j, names@[j]@),
            forall|j: int| 0 <= j < i ==> (#[trigger] entries@[j])@.len() == 40,
        decreases names@.len() - i,
    {
        let full = full_import_name(&names[i]);
        let mut e: Vec<u8> = Vec::new();
        push_u32_le(&mut e, 0);
        push_u32_le(&mut e, i as u32);
        write_padded_ascii(&mut e, full.as_str(), 0x20);
        assert(e@ =~= import_entry(i as int, names@[i as int]@));
        entries.push(e);
        i = i + 1;
    }
    assert(entries@.map_values(|e: Vec<u8>| e@) =~= names@.map(|i: int, n: String| import_entry(i, n@)));
    let pages = build_pages(sequence, 12, &entries, 40, 0x210, 0x10, 0x210);
    to_subpackets(0x16, pages)
}

/// The bytes of an error reply: sequence, error code, status code, text
/// id and the message, in 0x210 bytes.
pub open spec fn error_bytes(
    sequence: u64,
    error_code: u32,
    status_code: u32,
    text_id: u32,
    message: Seq<char>,
) -> Seq<u8> {
    u64_le(sequence) + u32_le(error_code) + u32_le(status_code) + u32_le(text_id) + padded(
        encode_utf8(message),
        0x1FC,
    )
}

/// An error reply (opcode 0x02); the message is cut to the space left.
pub fn error_packet(
    sequence: u64,
    error_code: u32,
    status_code: u32,
    text_id: u32,
    message: &str,
) -> (r: SubPacket)
    ensures
        is_lobby_subpacket(r, 0x02, error_bytes(sequence, error_code, status_code, text_id, message@)),
{
    let mut buf: Vec<u8> = Vec::new();
    push_u64_le(&mut buf, sequence);
    push_u32_le(&mut buf, error_code);
    push_u32_le(&mut buf, status_code);
    push_u32_le(&mut buf, text_id);
    write_padded_ascii(&mut buf, message, 0x210 - 20);
    assert(buf@ =~= error_bytes(sequence, error_code, status_code, text_id, message@));
    subpacket_for(0x02, buf)
}

/// The bytes confirming a character selection: sequence, the character
/// id twice, the session token, the world's port and address, and the
/// selection ticket, in 0x98 bytes.
pub open spec fn select_confirm_bytes(
    sequence: u64,
    character_id: u32,
    session_token: Seq<char>,
    world_ip: Seq<char>,
    world_port: u16,
    select_ticket: u64,
) -> Seq<u8> {
    u64_le(sequence) + u32_le(character_id) + u32_le(character_id) + u32_le(0) + padded(
        encode_utf8(session_token),
        0x42,
    ) + u16_le(world_port) + padded(encode_utf8(world_ip), 0x38) + u64_le(select_ticket)
}

/// The character-selection confirmation (opcode 0x0F).
pub fn select_character_confirm_packet(
    sequence: u64,
    character_id: u32,
    session_token: &str,
    world_ip: &str,
    world_port: u16,
    select_ticket: u64,
) -> (r: SubPacket)
    ensures
        is_lobby_subpacket(
            r,
            0x0F,
            select_confirm_bytes(
                sequence,
                character_id,
                session_token@,
                world_ip@,
                world_port,
                select_ticket,
            ),
        ),
        r.data@.len() == 0x98,
{
    let mut buf: Vec<u8> = Vec::new();
    push_u64_le(&mut buf, sequence);
    push_u32_le(&mut buf, character_id);
    push_u32_le(&mut buf, character_id);
    push_u32_le(&mut buf, 0);
    write_padded_ascii(&mut buf, session_token, 0x42);
    push_u16_le(&mut buf, world_port);
    write_padded_ascii(&mut buf, world_ip, 0x38);
    push_u64_le(&mut buf, select_ticket);
    assert(buf@ =~= select_confirm_bytes(
        sequence,
        character_id,
        session_token@,
        world_ip@,
        world_port,
        select_ticket,
    ));
    subpacket_for(0x0F, buf)
}

/// The character creator's answer: sequence, command, the person and
/// character ids, a fixed word, the ticket, and the character and world
/// names, zero-padded to 0x1F0 bytes.
pub open spec fn chara_creator_bytes(
    sequence: u64,
    command: u16,
    pid: u32,
    cid: u32,
    ticket: u32,
    chara_name: Seq<char>,
    world_name: Seq<char>,
) -> Seq<u8> {
    u64_le(sequence) + seq![1u8, 1u8] + u16_le(command) + u32_le(0) + u32_le(pid) + u32_le(cid)
        + u32_le(0x400017) + u32_le(ticket) + padded(encode_utf8(chara_name), 0x20) + padded(
        encode_utf8(world_name),
        0x20,
    ) + zeros(0x190)
}

/// The character creator's answer (opcode 0x0E).
pub fn chara_creator_packet(
    sequence: u64,
    command: u16,
    pid: u32,
    cid: u32,
    ticket: u32,
    chara_name: &str,
    world_name: &str,
) -> (r: SubPacket)
    ensures
        is_lobby_subpacket(
            r,
            0x0E,
            chara_creator_bytes(sequence, command, pid, cid, ticket, chara_name@, world_name@),
        ),
{
    let mut buf: Vec<u8> = Vec::new();
    push_u64_le(&mut buf, sequence);
    buf.push(1);
    buf.push(1);
    push_u16_le(&mut buf, command);
    push_u32_le(&mut buf, 0);
    push_u32_le(&mut buf, pid);
    push_u32_le(&mut buf, cid);
    push_u32_le(&mut buf, 0x400017);
    push_u32_le(&mut buf, ticket);
    write_padded_ascii(&mut buf, chara_name, 0x20);
    write_padded_ascii(&mut buf, world_name, 0x20);
    push_zeros(&mut buf, 0x1F0 - 0x60);
    assert(buf@ =~= chara_creator_bytes(
        sequence,
        command,
        pid,
        cid,
        ticket,
        chara_name@,
        world_name@,
    ));
    subpacket_for(0x0E, buf)
}

/// The option bits of a character-list entry: 0x01 when the state is 1,
/// 0x02 when a rename is due, 0x08 for a legacy character.
pub open spec fn chara_options(c: Character) -> u8 {
    ((if c.state == 1 { 1u8 } else { 0u8 }) | (if c.do_rename { 2u8 } else { 0u8 }) | (
    if c.is_legacy { 8u8 } else { 0u8 })) as u8
}

/// The world name an entry shows: the character's world, or `"Unknown"`.
pub open spec fn shown_world(world: Option<Seq<char>>) -> Seq<char> {
    match world {
        Some(n) => n,
        None => seq!['U', 'n', 'k', 'n', 'o', 'w', 'n'],
    }
}

/// The character-list entry of the character at list index `index`.
pub open spec fn chara_entry(index: int, c: Character, a: Appearance, world: Option<Seq<char>>) -> Seq<
    u8,
> {
    u32_le(0) + u32_le(c.id) + seq![index as u8, chara_options(c)] + u16_le(0) + u32_le(
        c.current_zone_id,
    ) + padded(encode_utf8(c.name@), 0x20) + padded(encode_utf8(shown_world(world)), 0x0E)
        + encode_utf8(chara_list_text(c, a))
}

/// The `NEW` slot after the last character: zeros but for its index.
pub open spec fn new_slot_entry(index: int) -> Seq<u8> {
    u32_le(0) + u32_le(0) + seq![index as u8, 0u8] + u16_le(0) + u32_le(0)
}

/// The entries of the character list, in order: the first eight
/// characters, then a `NEW` entry when fewer than eight exist.
pub open spec fn roster_entries(
    characters: Seq<Character>,
    appearances: Seq<Appearance>,
    worlds: Seq<Option<Seq<char>>>,
) -> Seq<Seq<u8>> {
    let m = if characters.len() < 8 {
        characters.len() as int
    } else {
        8
    };
    let num = if characters.len() < 8 {
        m + 1
    } else {
        8
    };
    Seq::new(
        num as nat,
        |k: int|
            if k < m {
                chara_entry(k, characters[k], appearances[k], worlds[k])
            } else {
                new_slot_entry(m)
            },
    )
}

/// A 0x1D0-byte slot written with the entry `e`: the entry's bytes (its
/// first 0x1D0), then whatever `prev`, the entry of the slot before it on
/// the same page, wrote past its own 0x1D0 bytes, then zeros.
pub open spec fn overlaid_slot(prev: Seq<u8>, e: Seq<u8>) -> Seq<u8> {
    Seq::new(
        0x1D0,
        |i: int|
            if i < e.len() {
                e[i]
            } else if 0x1D0 + i < prev.len() {
                prev[0x1D0 + i]
            } else {
                0u8
            },
    )
}

/// The slots of the character list, two to a page. The first slot of a
/// page starts from zeros; an entry there longer than its 0x1D0 bytes runs
/// on into the second slot, whose own entry is written over it.
pub open spec fn chara_slots(
    characters: Seq<Character>,
    appearances: Seq<Appearance>,
    worlds: Seq<Option<Seq<char>>>,
) -> Seq<Seq<u8>> {
    let es = roster_entries(characters, appearances, worlds);
    Seq::new(
        es.len(),
        |k: int|
            overlaid_slot(
                if k % 2 == 1 {
                    es[k - 1]
                } else {
                    Seq::<u8>::empty()
                },
                es[k],
            ),
    )
}

/// The longest appearance blob that can stand in slot `k` of the list: 512
/// bytes in the first slot of a page, 256 in the second.
pub open spec fn slot_blob_limit(k: int) -> int {
    if k % 2 == 0 {
        512
    } else {
        256
    }
}

/// The world names of a roster, as character sequences.
pub open spec fn world_views(worlds: Seq<Option<String>>) -> Seq<Option<Seq<char>>> {
    worlds.map_values(
        |w: Option<String>|
            match w {
                Some(s) => Some(s@),
                None => None,
            },
    )
}

fn push_bytes_of(out: &mut Vec<u8>, bytes: &[u8])
    ensures
        final(out)@ == old(out)@ + bytes@,
{
    let ghost start = out@;
    let mut i: usize = 0;
    while i < bytes.len()
        invariant
            i <= bytes@.len(),
            out@ == start + bytes@.take(i as int),
        decreases bytes@.len() - i,
    {
        out.push(bytes[i]);
        i = i + 1;
        assert(out@ =~= start + bytes@.take(i as int));
    }
    assert(bytes@.take(bytes@.len() as int) =~= bytes@);
}

#[verifier::rlimit(40)]
fn chara_entry_vec(index: usize, c: &Character, a: &Appearance, world: &Option<String>) -> (r: Vec<u8>)
    requires
        index < 8,
        chara_blob(*c, *a).len() <= 512,
    ensures
        r@ == chara_entry(
            index as int,
            *c,
            *a,
            match world {
                Some(s) => Some(s@),
                None => None,
            },
        ),
        chara_blob(*c, *a).len() <= 256 ==> r@.len() == 406,
        r@.len() <= 746,
{
    let mut e: Vec<u8> = Vec::new();
    push_u32_le(&mut e, 0);
    push_u32_le(&mut e, c.id);
    e.push(index as u8);
    let o_state: u8 = if c.state == 1 {
        1
    } else {
        0
    };
    let o_rename: u8 = if c.do_rename {
        2
    } else {
        0
    };
    let o_legacy: u8 = if c.is_legacy {
        8
    } else {
        0
    };
    let options = o_state | o_rename | o_legacy;
    e.push(options);
    push_u16_le(&mut e, 0);
    push_u32_le(&mut e, c.current_zone_id);
    write_padded_ascii(&mut e, c.name.as_str(), 0x20);
    match world {
        Some(name) => write_padded_ascii(&mut e, name.as_str(), 0x0E),
        None => {
            let unknown = "Unknown";
            proof {
                reveal_strlit("Unknown");
            }
            write_padded_ascii(&mut e, unknown, 0x0E);
        },
    }
    assert(e@.len() == 62);
    proof {
        assert(chara_blob(*c, *a).len() == 224 + encode_utf8(c.name@).len());
    }
    let text = build_for_chara_list(c, a);
    proof {
        vstd::utf8::is_ascii_chars_encode_utf8(text@);
        lemma_padded_blob_len(*c, *a);
    }
    push_bytes_of(&mut e, text.as_str().as_bytes());
    assert(e@.len() == 62 + text@.len());
    let ghost wv = match world {
        Some(s) => Some(s@),
        None => None,
    };
    proof {
        reveal_strlit("Unknown");
        assert("Unknown"@ =~= seq!['U', 'n', 'k', 'n', 'o', 'w', 'n']);
    }
    assert(e@ =~= chara_entry(index as int, *c, *a, wv));
    e
}

proof fn lemma_padded_blob_len(c: Character, a: Appearance)
    requires
        chara_blob(c, a).len() <= 512,
    ensures
        padded_blob(c, a).len() == if chara_blob(c, a).len() <= 256 {
            256int
        } else {
            512int
        },
{
    reveal_with_fuel(blob_capacity, 3);
}

fn overlaid_slot_vec(prev: &[u8], e: &[u8]) -> (r: Vec<u8>)
    ensures
        r@ == overlaid_slot(prev@, e@),
{
    let mut out: Vec<u8> = Vec::new();
    let mut i: usize = 0;
    while i < 0x1D0
        invariant
            i <= 0x1D0,
            out@.len() == i,
            forall|j: int| 0 <= j < i ==> out@[j] == #[trigger] overlaid_slot(prev@, e@)[j],
        decreases 0x1D0 - i,
    {
        let b = if i < e.len() {
            e[i]
        } else if i < prev.len() && 0x1D0 < prev.len() - i {
            prev[0x1D0 + i]
        } else {
            0u8
        };
        out.push(b);
        i = i + 1;
    }
    assert(out@ =~= overlaid_slot(prev@, e@));
    out
}

/// The character list (opcode 0x0D): two slots per 0x3B0-byte page (see
/// [`chara_slots`]). `appearances[i]` and `worlds[i]` belong to
/// `characters[i]`; a world of `None` shows as `"Unknown"`. Each listed
/// character's appearance blob must fit its slot (see
/// [`slot_blob_limit`]): a longer one would run past the page.
pub fn character_list_packets(
    sequence: u64,
    characters: &[Character],
    appearances: &[Appearance],
    worlds: &[Option<String>],
) -> (r: Vec<SubPacket>)
    requires
        appearances@.len() >= characters@.len() || appearances@.len() >= 8,
        worlds@.len() >= characters@.len() || worlds@.len() >= 8,
        forall|k: int|
            0 <= k < characters@.len() && k < 8 ==> #[trigger] chara_blob(
                characters@[k],
                appearances@[k],
            ).len() <= slot_blob_limit(k),
    ensures
        are_lobby_pages(
            r@,
            0x0D,
            list_pages(
                sequence,
                2,
                chara_slots(characters@, appearances@, world_views(worlds@)),
                0x3B0,
                0x10,
                0x3B0,
            ),
        ),
{
    let n = characters.len();
    let m = if n < 8 {
        n
    } else {
        8
    };
    let mut es: Vec<Vec<u8>> = Vec::new();
    let ghost want = roster_entries(characters@, appearances@, world_views(worlds@));
    let mut k: usize = 0;
    while k < m
        invariant
            k <= m,
            m == if n < 8 {
                n
            } else {
                8
            },
            n == characters@.len(),
            appearances@.len() >= characters@.len() || appearances@.len() >= 8,
            worlds@.len() >= characters@.len() || worlds@.len() >= 8,
            forall|j: int|
                0 <= j < characters@.len() && j < 8 ==> #[trigger] chara_blob(
                    characters@[j],
                    appearances@[j],
                ).len() <= slot_blob_limit(j),
            want == roster_entries(characters@, appearances@, world_views(worlds@)),
            es@.len() == k,
            forall|j: int| 0 <= j < k ==> (#[trigger] es@[j])@ == want[j],
            forall|j: int| 0 <= j < k && j % 2 == 1 ==> (#[trigger] es@[j])@.len() <= 0x1D0,
            forall|j: int| 0 <= j < k ==> (#[trigger] es@[j])@.len() <= 746,
        decreases m - k,
    {
        assert(chara_blob(characters@[k as int], appearances@[k as int]).len() <= slot_blob_limit(
            k as int,
        ));
        let e = chara_entry_vec(k, &characters[k], &appearances[k], &worlds[k]);
        es.push(e);
        k = k + 1;
    }
    if n < 8 {
        let mut e: Vec<u8> = Vec::new();
        push_u32_le(&mut e, 0);
        push_u32_le(&mut e, 0);
        e.push(m as u8);
        e.push(0);
        push_u16_le(&mut e, 0);
        push_u32_le(&mut e, 0);
        assert(e@ =~= new_slot_entry(m as int));
        es.push(e);
    }
    assert(es@.len() == want.len());
    let ghost want_slots = chara_slots(characters@, appearances@, world_views(worlds@));
    let mut slots: Vec<Vec<u8>> = Vec::new();
    let mut i: usize = 0;
    while i < es.len()
        invariant
            i <= es@.len(),
            es@.len() == want.len() <= 9,
            forall|j: int| 0 <= j < es@.len() ==> (#[trigger] es@[j])@ == want[j],
            want == roster_entries(characters@, appearances@, world_views(worlds@)),
            want_slots == chara_slots(characters@, appearances@, world_views(worlds@)),
            slots@.len() == i,
            forall|j: int| 0 <= j < i ==> (#[trigger] slots@[j])@ == want_slots[j],
            forall|j: int| 0 <= j < i ==> (#[trigger] slots@[j])@.len() == 0x1D0,
        decreases es@.len() - i,
    {
        let slot = if i % 2 == 1 {
            overlaid_slot_vec(es[i - 1].as_slice(), es[i].as_slice())
        } else {
            overlaid_slot_vec(&[], es[i].as_slice())
        };
        proof {
            if i % 2 == 0 {
                assert(slot@ =~= overlaid_slot(Seq::<u8>::empty(), want[i as int]));
            }
        }
        slots.push(slot);
        i = i + 1;
    }
    assert(slots@.map_values(|e: Vec<u8>| e@) =~= want_slots);
    let pages = build_pages(sequence, 2, &slots, 0x1D0, 0x3B0, 0x10, 0x3B0);
    to_subpackets(0x0D, pages)
}
} // verus!
