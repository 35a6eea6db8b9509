use vstd::prelude::*;
use vstd::arithmetic::power2::{
    pow2, lemma_pow2_unfold, lemma_pow2_strictly_increases, lemma2_to64, lemma2_to64_rest,
};

verus! {

/// Byte of a frame of `len` bytes that holds bit `j`. Bits are numbered from
/// the least significant bit of the first byte; a big-endian layout takes the
/// bytes in reverse order before numbering them.
pub open spec fn byte_index(len: int, big_endian: bool, j: int) -> int {
    if big_endian {
        len - 1 - j / 8
    } else {
        j / 8
    }
}

/// Bit `j` of the frame `data`.
pub open spec fn bit_at(data: Seq<u8>, big_endian: bool, j: int) -> bool {
    (data[byte_index(data.len() as int, big_endian, j)] >> ((j % 8) as u8)) & 1u8 == 1u8
}

/// Unsigned value of the `width` bits from bit `start` on, the first of them
/// the least significant.
pub open spec fn field(data: Seq<u8>, big_endian: bool, start: int, width: nat) -> nat
    decreases width,
{
    if width == 0 {
        0
    } else {
        (if bit_at(data, big_endian, start) {
            1nat
        } else {
            0nat
        }) + 2 * field(data, big_endian, start + 1, (width - 1) as nat)
    }
}

/// Bit `k` of `value`.
pub open spec fn value_bit(value: u64, k: int) -> bool {
    (value >> (k as u64)) & 1u64 == 1u64
}

/// The bits of `after` and `before` agree outside the window of `width` bits
/// from `start`, and the frames have one length.
pub open spec fn same_outside(
    before: Seq<u8>,
    after: Seq<u8>,
    big_endian: bool,
    start: int,
    width: int,
) -> bool {
    &&& after.len() == before.len()
    &&& forall|k: int|
        0 <= k < 8 * before.len() && !(start <= k < start + width) ==> #[trigger] bit_at(
            after,
            big_endian,
            k,
        ) == bit_at(before, big_endian, k)
}

proof fn lemma_set_bit_u8(b: u8, o: u8, p: u8)
    by (bit_vector)
    requires
        o < 8,
        p < 8,
    ensures
        ((b | (1u8 << o)) >> o) & 1u8 == 1u8,
        ((b & !(1u8 << o)) >> o) & 1u8 == 0u8,
        p != o ==> ((b | (1u8 << o)) >> p) & 1u8 == (b >> p) & 1u8,
        p != o ==> ((b & !(1u8 << o)) >> p) & 1u8 == (b >> p) & 1u8,
{
}

proof fn lemma_bit_is_0_or_1(b: u8, p: u8)
    by (bit_vector)
    ensures
        (b >> p) & 1u8 == 0u8 || (b >> p) & 1u8 == 1u8,
{
}

proof fn lemma_u64_halves(v: u64, m: u64)
    by (bit_vector)
    requires
        m < 63,
    ensures
        v >> 1u64 == v / 2,
        v & 1u64 == v % 2,
        v >> 0u64 == v,
        ((v >> 1u64) >> m) & 1u64 == (v >> (m + 1) as u64) & 1u64,
{
}

/// Sets bit `j` of the frame to `v`, leaving every other bit as it was.
fn set_bit(data: &mut Vec<u8>, big_endian: bool, j: usize, v: bool)
    requires
        j < 8 * old(data)@.len(),
    ensures
        final(data)@.len() == old(data)@.len(),
        bit_at(final(data)@, big_endian, j as int) == v,
        forall|k: int|
            0 <= k < 8 * old(data)@.len() && k != j ==> #[trigger] bit_at(
                final(data)@,
                big_endian,
                k,
            ) == bit_at(old(data)@, big_endian, k),
{
    let len = data.len();
    let bi = if big_endian {
        len - 1 - j / 8
    } else {
        j / 8
    };
    let o = (j % 8) as u8;
    let old_byte = data[bi];
    let mask: u8 = 1u8 << o;
    let new_byte = if v {
        old_byte | mask
    } else {
        old_byte & !mask
    };
    data.set(bi, new_byte);
    proof {
        lemma_set_bit_u8(old_byte, o, o);
        assert forall|k: int|
            0 <= k < 8 * old(data)@.len() && k != j implies #[trigger] bit_at(
                data@,
                big_endian,
                k,
            ) == bit_at(old(data)@, big_endian, k) by {
            let kb = byte_index(len as int, big_endian, k);
            if kb == bi {
                assert(k / 8 == j / 8);
                assert(k % 8 != j % 8);
                lemma_set_bit_u8(old_byte, o, (k % 8) as u8);
            }
        }
    }
}

/// Reads the unsigned value of the `width` bits from bit `start` on.
pub fn load_field(data: &[u8], big_endian: bool, start: usize, width: usize) -> (r: u64)
    requires
        width <= 64,
        start + width <= 8 * data@.len(),
        start + width <= usize::MAX,
    ensures
        r == field(data@, big_endian, start as int, width as nat),
        r < pow2(width as nat),
{
    let len = data.len();
    let mut acc: u64 = 0;
    let mut i: usize = width;
    proof {
        assert(pow2(0) == 1) by {
            lemma2_to64();
        }
    }
    while i > 0
        invariant
            i <= width <= 64,
            start + width <= 8 * len,
            start + width <= usize::MAX,
            len == data@.len(),
            acc == field(data@, big_endian, start + i, (width - i) as nat),
            acc < pow2((width - i) as nat),
        decreases i,
    {
        i -= 1;
        let j = start + i;
        let byte = if big_endian {
            data[len - 1 - j / 8]
        } else {
            data[j / 8]
        };
        let b = (byte >> ((j % 8) as u8)) & 1u8;
        proof {
            lemma_bit_is_0_or_1(byte, (j % 8) as u8);
            lemma_pow2_unfold((width - i) as nat);
            lemma2_to64();
            lemma2_to64_rest();
            if width - i < 64 {
                lemma_pow2_strictly_increases((width - i - 1) as nat, 63);
            }
        }
        acc = acc * 2 + b as u64;
    }
    acc
}

/// The field read back from bits that were set one by one to those of `value`
/// is `value`.
proof fn lemma_field_of_bits(data: Seq<u8>, big_endian: bool, start: int, width: nat, value: u64)
    requires
        width <= 64,
        value < pow2(width),
        forall|m: int| 0 <= m < width ==> #[trigger] bit_at(data, big_endian, start + m) == value_bit(value, m),
    ensures
        field(data, big_endian, start, width) == value,
    decreases width,
{
    if width == 0 {
        lemma2_to64();
    } else {
        let half = value >> 1u64;
        lemma_u64_halves(value, 0);
        lemma_pow2_unfold(width);
        assert forall|m: int| 0 <= m < width - 1 implies #[trigger] bit_at(
            data,
            big_endian,
            (start + 1) + m,
        ) == value_bit(half, m) by {
            lemma_u64_halves(value, m as u64);
            assert(bit_at(data, big_endian, start + (m + 1)) == value_bit(value, m + 1));
            assert((start + 1) + m == start + (m + 1));
        }
        lemma_field_of_bits(data, big_endian, start + 1, (width - 1) as nat, half);
        assert(bit_at(data, big_endian, start + 0) == value_bit(value, 0));
        assert(start + 0 == start);
    }
}

/// Writes `value` into the `width` bits from bit `start` on, leaving every
/// other bit of the frame as it was.
pub fn store_field(data: &mut Vec<u8>, big_endian: bool, start: usize, width: usize, value: u64)
    requires
        width <= 64,
        start + width <= 8 * old(data)@.len(),
        start + width <= usize::MAX,
        value < pow2(width as nat),
    ensures
        field(final(data)@, big_endian, start as int, width as nat) == value,
        same_outside(old(data)@, final(data)@, big_endian, start as int, width as int),
{
    let mut i: usize = 0;
    while i < width
        invariant
            i <= width <= 64,
            start + width <= 8 * old(data)@.len(),
            start + width <= usize::MAX,
            data@.len() == old(data)@.len(),
            forall|m: int| 0 <= m < i ==> #[trigger] bit_at(data@, big_endian, start + m) == value_bit(value, m),
            forall|k: int|
                0 <= k < 8 * old(data)@.len() && !(start <= k < start + i) ==> #[trigger] bit_at(
                    data@,
                    big_endian,
                    k,
                ) == bit_at(old(data)@, big_endian, k),
        decreases width - i,
    {
        let bit = (value >> (i as u64)) & 1u64 == 1u64;
        set_bit(data, big_endian, start + i, bit);
        proof {
            assert(bit_at(data@, big_endian, start + i as int) == value_bit(value, i as int));
        }
        i += 1;
    }
    proof {
        lemma_field_of_bits(data@, big_endian, start as int, width as nat, value);
    }
}

} // verus!
