//! `Bitstream2048`: a dense 2048-bit field stored in 256 bytes. Bit `at`
//! lives in byte `at / 8` at shift `at % 8` (LSB-first inside the byte), so
//! the byte image matches the wire and database representation.

use vstd::prelude::*;

verus! {

/// Number of bits in the bitfield.
pub const BITSTREAM_BITS: usize = 2048;

/// Number of bytes backing the bitfield.
pub const BITSTREAM_BYTES: usize = 256;

/// Whether bit `i` (0..8) of byte `b` is set.
pub open spec fn byte_bit(b: u8, i: int) -> bool {
    (b >> (i as u8)) & 1u8 == 1u8
}

/// Number of set bits in one byte.
pub open spec fn popcount8(b: u8) -> nat {
    (if byte_bit(b, 0) { 1nat } else { 0nat }) + (if byte_bit(b, 1) { 1nat } else { 0nat }) + (
    if byte_bit(b, 2) { 1nat } else { 0nat }) + (if byte_bit(b, 3) { 1nat } else { 0nat }) + (
    if byte_bit(b, 4) { 1nat } else { 0nat }) + (if byte_bit(b, 5) { 1nat } else { 0nat }) + (
    if byte_bit(b, 6) { 1nat } else { 0nat }) + (if byte_bit(b, 7) { 1nat } else { 0nat })
}

/// Number of set bits in the first `n` bytes.
pub open spec fn popcount_prefix(bytes: Seq<u8>, n: int) -> nat
    decreases n,
{
    if n <= 0 {
        0
    } else {
        popcount_prefix(bytes, n - 1) + popcount8(bytes[n - 1])
    }
}

/// Number of set bits in a byte sequence.
pub open spec fn popcount(bytes: Seq<u8>) -> nat {
    popcount_prefix(bytes, bytes.len() as int)
}

/// Number of set bits among the first `n` bits.
pub open spec fn ones_below(bytes: Seq<u8>, n: int) -> nat
    decreases n,
{
    if n <= 0 {
        0
    } else {
        ones_below(bytes, n - 1) + if bit_at(bytes, n - 1) {
            1nat
        } else {
            0nat
        }
    }
}

/// Bit `at` of a byte image, LSB-first within each byte; `false` past the end.
pub open spec fn bit_at(bytes: Seq<u8>, at: int) -> bool {
    0 <= at < bytes.len() * 8 && byte_bit(bytes[at / 8], at % 8)
}

#[derive(Debug, Clone, PartialEq, Eq)]
pub struct Bitstream2048 {
    data: [u8; 256],
}

impl Default for Bitstream2048 {
    /// All bits cleared, as [`Bitstream2048::new`].
    fn default() -> (r: Self)
        ensures
            r@ == Seq::new(256, |i: int| 0u8),
    {
        Bitstream2048::new()
    }
}

impl View for Bitstream2048 {
    type V = Seq<u8>;

    closed spec fn view(&self) -> Seq<u8> {
        self.data@
    }
}

proof fn lemma_set_bit(b: u8, k: u8, i: int)
    requires
        k < 8,
        0 <= i < 8,
    ensures
        byte_bit(b | (1u8 << k), i) == (i == k || byte_bit(b, i)),
{
    let iu = i as u8;
    assert((((b | (1u8 << k)) >> iu) & 1u8 == 1u8) == (iu == k || ((b >> iu) & 1u8 == 1u8)))
        by (bit_vector)
        requires
            iu < 8,
            k < 8,
    ;
}

proof fn lemma_clear_bit(b: u8, k: u8, i: int)
    requires
        k < 8,
        0 <= i < 8,
    ensures
        byte_bit(b & !(1u8 << k), i) == (i != k && byte_bit(b, i)),
{
    let iu = i as u8;
    assert((((b & !(1u8 << k)) >> iu) & 1u8 == 1u8) == (iu != k && ((b >> iu) & 1u8 == 1u8)))
        by (bit_vector)
        requires
            iu < 8,
            k < 8,
    ;
}

proof fn lemma_ones_below_bytes(bytes: Seq<u8>, k: int)
    requires
        0 <= k <= bytes.len(),
    ensures
        ones_below(bytes, 8 * k) == popcount_prefix(bytes, k),
    decreases k,
{
    if k > 0 {
        lemma_ones_below_bytes(bytes, k - 1);
        let b = 8 * (k - 1);
        assert forall|j: int| 0 <= j < 8 implies #[trigger] bit_at(bytes, b + j) == byte_bit(
            bytes[k - 1],
            j,
        ) by {
            assert((b + j) / 8 == k - 1 && (b + j) % 8 == j) by (nonlinear_arith)
                requires
                    b == 8 * (k - 1),
                    0 <= j < 8,
            ;
        }
        reveal_with_fuel(ones_below, 9);
        assert(bit_at(bytes, b + 0) == byte_bit(bytes[k - 1], 0));
        assert(bit_at(bytes, b + 1) == byte_bit(bytes[k - 1], 1));
        assert(bit_at(bytes, b + 2) == byte_bit(bytes[k - 1], 2));
        assert(bit_at(bytes, b + 3) == byte_bit(bytes[k - 1], 3));
        assert(bit_at(bytes, b + 4) == byte_bit(bytes[k - 1], 4));
        assert(bit_at(bytes, b + 5) == byte_bit(bytes[k - 1], 5));
        assert(bit_at(bytes, b + 6) == byte_bit(bytes[k - 1], 6));
        assert(bit_at(bytes, b + 7) == byte_bit(bytes[k - 1], 7));
    }
}

proof fn lemma_popcount_fill(bytes: Seq<u8>, fill: u8, n: int)
    requires
        0 <= n <= bytes.len(),
        forall|j: int| 0 <= j < bytes.len() ==> bytes[j] == fill,
        fill == 0 || fill == 0xFF,
    ensures
        popcount_prefix(bytes, n) == if fill == 0 {
            0
        } else {
            8 * n
        },
    decreases n,
{
    if n > 0 {
        lemma_popcount_fill(bytes, fill, n - 1);
        assert(popcount8(0) == 0 && popcount8(0xFF) == 8) by {
            assert(forall|j: int| 0 <= j < 8 ==> byte_bit(0xFFu8, j) && !byte_bit(0u8, j)) by {
                assert forall|j: int| 0 <= j < 8 implies byte_bit(0xFFu8, j) && !byte_bit(0u8, j) by {
                    let jj = j as u8;
                    assert(((0xFFu8 >> jj) & 1u8 == 1u8) && !((0u8 >> jj) & 1u8 == 1u8)) by (bit_vector)
                        requires
                            jj < 8,
                    ;
                }
            }
        }
    }
}

proof fn lemma_popcount_prefix_bound(bytes: Seq<u8>, n: int)
    requires
        0 <= n <= bytes.len(),
    ensures
        popcount_prefix(bytes, n) <= 8 * n,
    decreases n,
{
    if n > 0 {
        lemma_popcount_prefix_bound(bytes, n - 1);
    }
}

/// Number of set bits in one byte, computed bit by bit.
fn popcount_byte(b: u8) -> (r: u32)
    ensures
        r == popcount8(b),
{
    let mut r: u32 = 0;
    let mut i: u8 = 0;
    while i < 8
        invariant
            i <= 8,
            r == (if i > 0 && byte_bit(b, 0) { 1nat } else { 0nat }) + (if i > 1 && byte_bit(
                b,
                1,
            ) { 1nat } else { 0nat }) + (if i > 2 && byte_bit(b, 2) { 1nat } else { 0nat }) + (
            if i > 3 && byte_bit(b, 3) { 1nat } else { 0nat }) + (if i > 4 && byte_bit(b, 4) {
                1nat
            } else { 0nat }) + (if i > 5 && byte_bit(b, 5) { 1nat } else { 0nat }) + (if i > 6
                && byte_bit(b, 6) { 1nat } else { 0nat }) + (if i > 7 && byte_bit(b, 7) {
                1nat
            } else { 0nat }),
        decreases 8 - i,
    {
        if (b >> i) & 1u8 == 1u8 {
            r = r + 1;
        }
        i = i + 1;
    }
    r
}

impl Bitstream2048 {
    /// The byte image is always 256 bytes long.
    pub proof fn lemma_len(&self)
        ensures
            self@.len() == 256,
    {
    }

    /// All bits cleared.
    pub fn new() -> (r: Self)
        ensures
            r@ == Seq::new(256, |i: int| 0u8),
    {
        let r = Bitstream2048 { data: [0u8; 256] };
        assert(r@ =~= Seq::new(256, |i: int| 0u8));
        r
    }
}

/// The bits of `bytes` equal those of `old` except that bit `at` is `value`
/// (when `at` is in range).
pub open spec fn bits_after_write(old: Seq<u8>, new: Seq<u8>, at: int, value: bool) -> bool {
    &&& new.len() == old.len()
    &&& forall|i: int|
        #![trigger bit_at(new, i)]
        bit_at(new, i) == if i == at && 0 <= at < old.len() * 8 {
            value
        } else {
            bit_at(old, i)
        }
}

/// Writing a bit twice with the same value reads back as writing it once:
/// every bit after the second write is as after the first.
pub proof fn lemma_write_idempotent(a: Seq<u8>, b: Seq<u8>, c: Seq<u8>, at: int, value: bool)
    requires
        bits_after_write(a, b, at, value),
        bits_after_write(b, c, at, value),
    ensures
        c.len() == b.len(),
        forall|i: int| #[trigger] bit_at(c, i) == bit_at(b, i),
{
    assert forall|i: int| #[trigger] bit_at(c, i) == bit_at(b, i) by {
        assert(bit_at(c, i) == if i == at && 0 <= at < b.len() * 8 {
            value
        } else {
            bit_at(b, i)
        });
        assert(bit_at(b, i) == if i == at && 0 <= at < a.len() * 8 {
            value
        } else {
            bit_at(a, i)
        });
    }
}

impl Bitstream2048 {
    /// All bits set.
    pub fn all_set() -> (r: Self)
        ensures
            r@ == Seq::new(256, |i: int| 0xFFu8),
    {
        let r = Bitstream2048 { data: [0xFFu8; 256] };
        assert(r@ =~= Seq::new(256, |i: int| 0xFFu8));
        r
    }

    /// Builds a bitfield from raw bytes; at most 256 bytes are taken and a
    /// shorter input leaves the tail zero.
    pub fn from_slice(bytes: &[u8]) -> (r: Self)
        ensures
            r@ == Seq::new(256, |i: int| if i < bytes@.len() { bytes@[i] } else { 0u8 }),
    {
        let mut data = [0u8; 256];
        let n = if bytes.len() < 256 { bytes.len() } else { 256 };
        let mut i: usize = 0;
        while i < n
            invariant
                n <= 256,
                n <= bytes@.len(),
                n == bytes@.len() || n == 256,
                i <= n,
                forall|j: int| 0 <= j < i ==> data@[j] == bytes@[j],
                forall|j: int| i <= j < 256 ==> data@[j] == 0u8,
            decreases n - i,
        {
            data[i] = bytes[i];
            i = i + 1;
        }
        let r = Bitstream2048 { data };
        assert(r@ =~= Seq::new(256, |i: int| if i < bytes@.len() { bytes@[i] } else { 0u8 }));
        r
    }

    /// The backing bytes.
    pub fn as_bytes(&self) -> (r: &[u8; 256])
        ensures
            r@ == self@,
    {
        &self.data
    }

    /// Sets every bit to `to`.
    pub fn set_all(&mut self, to: bool)
        ensures
            final(self)@ == Seq::new(256, |i: int| if to { 0xFFu8 } else { 0u8 }),
            forall|i: int| 0 <= i < 2048 ==> #[trigger] bit_at(final(self)@, i) == to,
            popcount(final(self)@) == if to {
                2048nat
            } else {
                0nat
            },
    {
        let fill: u8 = if to { 0xFF } else { 0x00 };
        let mut i: usize = 0;
        while i < 256
            invariant
                i <= 256,
                forall|j: int| 0 <= j < i ==> self.data@[j] == fill,
            decreases 256 - i,
        {
            self.data[i] = fill;
            i = i + 1;
        }
        assert(self@ =~= Seq::new(256, |i: int| if to { 0xFFu8 } else { 0u8 }));
        proof {
            assert(forall|j: int| 0 <= j < 8 ==> byte_bit(fill, j) == to) by {
                assert forall|j: int| 0 <= j < 8 implies byte_bit(fill, j) == to by {
                    let jj = j as u8;
                    assert(((0xFFu8 >> jj) & 1u8 == 1u8) && !((0u8 >> jj) & 1u8 == 1u8)) by (bit_vector)
                        requires
                            jj < 8,
                    ;
                }
            }
            assert forall|i: int| 0 <= i < 2048 implies #[trigger] bit_at(self@, i) == to by {
                assert(0 <= i % 8 < 8);
                assert(self@[i / 8] == fill);
            }
            lemma_popcount_fill(self@, fill, 256);
        }
    }

    /// Bit `at`; indices at or past 2048 read as `false`.
    pub fn get(&self, at: usize) -> (r: bool)
        ensures
            r == bit_at(self@, at as int),
            at >= 2048 ==> !r,
    {
        if at >= BITSTREAM_BITS {
            return false;
        }
        let byte_pos = at / 8;
        let bit_pos = (at % 8) as u8;
        let b = self.data[byte_pos];
        assert(((b & (1u8 << bit_pos)) != 0u8) == ((b >> bit_pos) & 1u8 == 1u8)) by (bit_vector)
            requires
                bit_pos < 8,
        ;
        (b & (1u8 << bit_pos)) != 0
    }

    /// Sets bit `at`; a no-op when `at >= 2048`.
    pub fn set(&mut self, at: usize)
        ensures
            bits_after_write(old(self)@, final(self)@, at as int, true),
            at < 2048 ==> final(self)@ == old(self)@.update(
                (at / 8) as int,
                old(self)@[(at / 8) as int] | (1u8 << ((at % 8) as u8)),
            ),
            at >= 2048 ==> final(self)@ == old(self)@,
    {
        if at >= BITSTREAM_BITS {
            return;
        }
        let byte_pos = at / 8;
        let bit_pos = (at % 8) as u8;
        let ghost old_data = self.data@;
        let b = self.data[byte_pos];
        self.data[byte_pos] = b | (1u8 << bit_pos);
        assert forall|i: int| #![trigger bit_at(self@, i)]
            bit_at(self@, i) == if i == at && 0 <= at < old_data.len() * 8 {
                true
            } else {
                bit_at(old_data, i)
            } by {
            if 0 <= i < 2048 {
                if i / 8 == byte_pos as int {
                    lemma_set_bit(b, bit_pos, i % 8);
                }
            }
        }
    }

    /// Clears bit `at`; a no-op when `at >= 2048`.
    pub fn clear(&mut self, at: usize)
        ensures
            bits_after_write(old(self)@, final(self)@, at as int, false),
            at < 2048 ==> final(self)@ == old(self)@.update(
                (at / 8) as int,
                old(self)@[(at / 8) as int] & !(1u8 << ((at % 8) as u8)),
            ),
            at >= 2048 ==> final(self)@ == old(self)@,
    {
        if at >= BITSTREAM_BITS {
            return;
        }
        let byte_pos = at / 8;
        let bit_pos = (at % 8) as u8;
        let ghost old_data = self.data@;
        let b = self.data[byte_pos];
        self.data[byte_pos] = b & !(1u8 << bit_pos);
        assert forall|i: int| #![trigger bit_at(self@, i)]
            bit_at(self@, i) == if i == at && 0 <= at < old_data.len() * 8 {
                false
            } else {
                bit_at(old_data, i)
            } by {
            if 0 <= i < 2048 {
                if i / 8 == byte_pos as int {
                    lemma_clear_bit(b, bit_pos, i % 8);
                }
            }
        }
    }

    /// Number of set bits.
    pub fn count_ones(&self) -> (r: u32)
        ensures
            r == popcount(self@),
    {
        let mut total: u32 = 0;
        let mut i: usize = 0;
        while i < 256
            invariant
                i <= 256,
                self.data@.len() == 256,
                total == popcount_prefix(self.data@, i as int),
            decreases 256 - i,
        {
            proof {
                lemma_popcount_prefix_bound(self.data@, i as int);
            }
            let c = popcount_byte(self.data[i]);
            total = total + c;
            i = i + 1;
        }
        total
    }

    /// Indices of all set bits, in increasing order.
    pub fn iter_set(&self) -> (r: Vec<usize>)
        ensures
            forall|j: int, k: int| 0 <= j < k < r@.len() ==> r@[j] < r@[k],
            forall|j: int| 0 <= j < r@.len() ==> bit_at(self@, r@[j] as int),
            forall|at: int| #![trigger bit_at(self@, at)]
                bit_at(self@, at) ==> r@.contains(at as usize),
            r@.len() == popcount(self@),
    {
        let mut r: Vec<usize> = Vec::new();
        let mut at: usize = 0;
        while at < 2048
            invariant
                at <= 2048,
                self@.len() == 256,
                forall|j: int, k: int| 0 <= j < k < r@.len() ==> r@[j] < r@[k],
                forall|j: int| 0 <= j < r@.len() ==> r@[j] < at && bit_at(self@, r@[j] as int),
                forall|a: int| #![trigger bit_at(self@, a)]
                    0 <= a < at && bit_at(self@, a) ==> r@.contains(a as usize),
                r@.len() == ones_below(self@, at as int),
            decreases 2048 - at,
        {
            let ghost prev = r@;
            if self.get(at) {
                r.push(at);
                assert(r@[r@.len() - 1] == at);
            }
            assert forall|a: int| #![trigger bit_at(self@, a)]
                0 <= a < at + 1 && bit_at(self@, a) implies r@.contains(a as usize) by {
                if a < at {
                    let j = choose|j: int| 0 <= j < prev.len() && prev[j] == a as usize;
                    assert(r@[j] == a as usize);
                } else {
                    assert(r@[r@.len() - 1] == at);
                }
            }
            at = at + 1;
        }
        proof {
            assert forall|a: int| #![trigger bit_at(self@, a)] bit_at(self@, a) implies r@.contains(
                a as usize,
            ) by {
                assert(0 <= a < 2048);
            }
            lemma_ones_below_bytes(self@, 256);
        }
        r
    }
}

} // verus!
