//! Facts about the bit operations that the register encodings use, stated in
//! plain arithmetic.

use vstd::prelude::*;

verus! {

/// Splitting a 16-bit word into its high and low byte.
pub proof fn lemma_u16_split(v: u16)
    ensures
        (v >> 8u16) as u8 == v / 256,
        (v & 0xffu16) as u8 == v % 256,
        (v >> 8u16) < 256,
        (v & 0xffu16) < 256,
{
    assert((v >> 8u16) as u8 == v / 256 && (v & 0xffu16) as u8 == v % 256 && (v >> 8u16) < 256
        && (v & 0xffu16) < 256) by (bit_vector);
}

/// Joining a high and a low byte into a 16-bit word.
pub proof fn lemma_u16_join(hi: u8, lo: u8)
    ensures
        ((hi as u16) << 8u16 | (lo as u16)) == hi * 256 + lo,
{
    assert(((hi as u16) << 8u16 | (lo as u16)) == hi * 256 + lo) by (bit_vector);
}

/// Or-ing a value below 16 into a byte whose low nibble is clear adds it.
pub proof fn lemma_or_low_nibble(a: u8, b: u8)
    requires
        a % 16 == 0,
        b < 16,
    ensures
        a | b == a + b,
        b | a == a + b,
{
    assert(a % 16 == 0 && b < 16 ==> a | b == a + b && b | a == a + b) by (bit_vector);
}

/// Masks of a 16-bit word, in arithmetic terms.
pub proof fn lemma_u16_masks(v: u16)
    ensures
        v & 0xfff0u16 == v - v % 16,
        (v >> 13u16) & 0b11u16 == (v / 8192) % 4,
        (v >> 5u16) & 0xffu16 == (v / 32) % 256,
        (v >> 4u16) & 0b11u16 == (v / 16) % 4,
{
    assert(v & 0xfff0u16 == v - v % 16 && (v >> 13u16) & 0b11u16 == (v / 8192) % 4 && (v >> 5u16)
        & 0xffu16 == (v / 32) % 256 && (v >> 4u16) & 0b11u16 == (v / 16) % 4) by (bit_vector);
}

} // verus!

verus! {

/// The three low bits of a byte.
pub proof fn lemma_low3(v: u8)
    ensures
        v & 0b111u8 == v % 8,
{
    assert(v & 0b111u8 == v % 8) by (bit_vector);
}

/// A 16-bit word read as four three-bit fields at bits 0, 3, 6 and 9, and a
/// four-bit field at bit 12.
pub proof fn lemma_u16_fields3(b: u16)
    ensures
        b & 7u16 == b % 8,
        (b >> 0u16) & 7u16 == b % 8,
        (b >> 3u16) & 7u16 == (b / 8) % 8,
        (b >> 6u16) & 7u16 == (b / 64) % 8,
        (b >> 9u16) & 7u16 == (b / 512) % 8,
        (b >> 12u16) & 0xfu16 == b / 4096,
        b == b % 8 + 8 * ((b / 8) % 8) + 64 * ((b / 64) % 8) + 512 * ((b / 512) % 8) + 4096 * (b
            / 4096),
{
    assert(b & 7u16 == b % 8 && (b >> 0u16) & 7u16 == b % 8 && (b >> 3u16) & 7u16 == (b / 8) % 8 && (b >> 6u16) & 7u16 == (b / 64)
        % 8 && (b >> 9u16) & 7u16 == (b / 512) % 8 && (b >> 12u16) & 0xfu16 == b / 4096 && b == b
        % 8 + 8 * ((b / 8) % 8) + 64 * ((b / 64) % 8) + 512 * ((b / 512) % 8) + 4096 * (b / 4096))
        by (bit_vector);
}

/// Replacing the three-bit field at `off` (0, 3, 6 or 9) with `v` leaves the other
/// fields as they were.
pub proof fn lemma_u16_set_field3(b: u16, off: u16, v: u16)
    requires
        off == 0 || off == 3 || off == 6 || off == 9,
        v < 8,
    ensures
        ((b & !(7u16 << off) | (v & 7u16) << off) >> off) & 7u16 == v,
        forall|o: u16|
            (o == 0 || o == 3 || o == 6 || o == 9) && o != off ==> (((b & !(7u16 << off) | (v
                & 7u16) << off) >> o) & 7u16 == (b >> o) & 7u16),
        ((b & !(7u16 << off) | (v & 7u16) << off) >> 12u16) & 0xfu16 == (b >> 12u16) & 0xfu16,
{
    assert((off == 0 || off == 3 || off == 6 || off == 9) && v < 8 ==> ((b & !(7u16 << off) | (v
        & 7u16) << off) >> off) & 7u16 == v && ((b & !(7u16 << off) | (v & 7u16) << off) >> 12u16)
        & 0xfu16 == (b >> 12u16) & 0xfu16) by (bit_vector);
    assert forall|o: u16|
        (o == 0 || o == 3 || o == 6 || o == 9) && o != off implies (((b & !(7u16 << off) | (v
        & 7u16) << off) >> o) & 7u16 == (b >> o) & 7u16) by {
        assert((off == 0 || off == 3 || off == 6 || off == 9) && (o == 0 || o == 3 || o == 6 || o
            == 9) && o != off ==> (((b & !(7u16 << off) | (v & 7u16) << off) >> o) & 7u16 == (b
            >> o) & 7u16)) by (bit_vector);
    }
}

} // verus!

verus! {

/// The number whose little-endian bytes are `s`: the first byte is the least significant.
pub open spec fn le_value(s: Seq<u8>) -> nat
    decreases s.len(),
{
    if s.len() == 0 {
        0
    } else {
        s[0] as nat + 256 * le_value(s.drop_first())
    }
}

/// The 16-bit number with the little-endian bytes `raw`.
pub fn u16_from_le_bytes(raw: [u8; 2]) -> (r: u16)
    ensures
        r == le_value(raw@),
        r == raw[0] + 256 * raw[1],
{
    reveal_with_fuel(le_value, 3);
    assert(raw@.drop_first().drop_first() =~= Seq::<u8>::empty());
    let b0: u8 = raw[0];
    let b1: u8 = raw[1];
    assert(((b0 as u16) | (b1 as u16) << 8u16) == b0 + 256 * b1) by (bit_vector);
    (b0 as u16) | (b1 as u16) << 8
}

/// The little-endian bytes of a 16-bit number.
pub fn u16_to_le_bytes(v: u16) -> (r: [u8; 2])
    ensures
        r[0] == v % 256,
        r[1] == v / 256,
        le_value(r@) == v,
{
    proof {
        reveal_with_fuel(le_value, 3);
        lemma_u16_split(v);
    }
    let r = [(v & 0xff) as u8, (v >> 8) as u8];
    assert(r@.drop_first().drop_first() =~= Seq::<u8>::empty());
    r
}

/// The 32-bit number with the little-endian bytes `raw`.
pub fn u32_from_le_bytes(raw: [u8; 4]) -> (r: u32)
    ensures
        r == le_value(raw@),
        r == raw[0] + 256 * raw[1] + 65536 * raw[2] + 16777216 * raw[3],
        (r / 256) % 256 == raw[1],
        (r / 65536) % 256 == raw[2],
{
    reveal_with_fuel(le_value, 5);
    assert(raw@.drop_first().drop_first().drop_first().drop_first() =~= Seq::<u8>::empty());
    let b0: u8 = raw[0];
    let b1: u8 = raw[1];
    let b2: u8 = raw[2];
    let b3: u8 = raw[3];
    assert(((b0 as u32) | (b1 as u32) << 8u32 | (b2 as u32) << 16u32 | (b3 as u32) << 24u32) == b0
        + 256 * b1 + 65536 * b2 + 16777216 * b3 && ((((b0 as u32) | (b1 as u32) << 8u32 | (b2 as u32)
        << 16u32 | (b3 as u32) << 24u32) / 256) % 256) == b1 && ((((b0 as u32) | (b1 as u32) << 8u32
        | (b2 as u32) << 16u32 | (b3 as u32) << 24u32) / 65536) % 256) == b2) by (bit_vector);
    (b0 as u32) | (b1 as u32) << 8 | (b2 as u32) << 16 | (b3 as u32) << 24
}

/// The little-endian bytes of a 32-bit number.
pub fn u32_to_le_bytes(v: u32) -> (r: [u8; 4])
    ensures
        r[0] == v % 256,
        r[1] == (v / 256) % 256,
        r[2] == (v / 65536) % 256,
        r[3] == v / 16777216,
        le_value(r@) == v,
{
    reveal_with_fuel(le_value, 5);
    assert((v & 0xffu32) as u8 == v % 256 && ((v >> 8u32) & 0xffu32) as u8 == (v / 256) % 256 && ((v
        >> 16u32) & 0xffu32) as u8 == (v / 65536) % 256 && (v >> 24u32) as u8 == v / 16777216 && v
        == v % 256 + 256 * ((v / 256) % 256) + 65536 * ((v / 65536) % 256) + 16777216 * (v
        / 16777216)) by (bit_vector);
    let r = [(v & 0xff) as u8, ((v >> 8) & 0xff) as u8, ((v >> 16) & 0xff) as u8, (v >> 24) as u8];
    assert(r@.drop_first().drop_first().drop_first().drop_first() =~= Seq::<u8>::empty());
    r
}

/// The 64-bit number with the little-endian bytes `raw`.
pub fn u64_from_le_bytes(raw: [u8; 8]) -> (r: u64)
    ensures
        r == le_value(raw@),
{
    reveal_with_fuel(le_value, 9);
    assert(raw@.drop_first().drop_first().drop_first().drop_first().drop_first().drop_first().drop_first().drop_first()
        =~= Seq::<u8>::empty());
    let b0: u8 = raw[0];
    let b1: u8 = raw[1];
    let b2: u8 = raw[2];
    let b3: u8 = raw[3];
    let b4: u8 = raw[4];
    let b5: u8 = raw[5];
    let b6: u8 = raw[6];
    let b7: u8 = raw[7];
    assert(((b0 as u64) | (b1 as u64) << 8u64 | (b2 as u64) << 16u64 | (b3 as u64) << 24u64 | (b4
        as u64) << 32u64 | (b5 as u64) << 40u64 | (b6 as u64) << 48u64 | (b7 as u64) << 56u64) == b0
        + 256 * (b1 + 256 * (b2 + 256 * (b3 + 256 * (b4 + 256 * (b5 + 256 * (b6 + 256 * b7)))))))
        by (bit_vector);
    (b0 as u64) | (b1 as u64) << 8 | (b2 as u64) << 16 | (b3 as u64) << 24 | (b4 as u64) << 32 | (b5
        as u64) << 40 | (b6 as u64) << 48 | (b7 as u64) << 56
}

/// The little-endian bytes of a 64-bit number.
pub fn u64_to_le_bytes(v: u64) -> (r: [u8; 8])
    ensures
        le_value(r@) == v,
        forall|i: int| 0 <= i < 8 ==> r[i] == (v as nat / pow256(i as nat)) % 256,
{
    reveal_with_fuel(le_value, 9);
    let r = [
        (v & 0xff) as u8,
        ((v >> 8) & 0xff) as u8,
        ((v >> 16) & 0xff) as u8,
        ((v >> 24) & 0xff) as u8,
        ((v >> 32) & 0xff) as u8,
        ((v >> 40) & 0xff) as u8,
        ((v >> 48) & 0xff) as u8,
        (v >> 56) as u8,
    ];
    assert((v & 0xffu64) as u8 == v % 256 && ((v >> 8u64) & 0xffu64) as u8 == (v / 0x100) % 256
        && ((v >> 16u64) & 0xffu64) as u8 == (v / 0x10000) % 256 && ((v >> 24u64) & 0xffu64) as u8
        == (v / 0x1000000) % 256 && ((v >> 32u64) & 0xffu64) as u8 == (v / 0x100000000) % 256 && ((v
        >> 40u64) & 0xffu64) as u8 == (v / 0x10000000000) % 256 && ((v >> 48u64) & 0xffu64) as u8
        == (v / 0x1000000000000) % 256 && (v >> 56u64) as u8 == (v / 0x100000000000000) % 256 && v
        == v % 256 + 256 * ((v / 0x100) % 256 + 256 * ((v / 0x10000) % 256 + 256 * ((v / 0x1000000)
        % 256 + 256 * ((v / 0x100000000) % 256 + 256 * ((v / 0x10000000000) % 256 + 256 * ((v
        / 0x1000000000000) % 256 + 256 * ((v / 0x100000000000000) % 256)))))))) by (bit_vector);
    reveal_with_fuel(pow256, 9);
    assert(r@.drop_first().drop_first().drop_first().drop_first().drop_first().drop_first().drop_first().drop_first()
        =~= Seq::<u8>::empty());
    r
}

/// 256 to the power `n`.
pub open spec fn pow256(n: nat) -> nat
    decreases n,
{
    if n == 0 {
        1
    } else {
        256 * pow256((n - 1) as nat)
    }
}

} // verus!

verus! {

/// Two byte strings of one length with the same little-endian value are equal.
pub proof fn lemma_le_value_injective(a: Seq<u8>, b: Seq<u8>)
    requires
        a.len() == b.len(),
        le_value(a) == le_value(b),
    ensures
        a == b,
    decreases a.len(),
{
    if a.len() > 0 {
        let x = a[0] as int;
        let y = b[0] as int;
        let p = le_value(a.drop_first()) as int;
        let q = le_value(b.drop_first()) as int;
        assert(x == y && p == q) by (nonlinear_arith)
            requires
                x + 256 * p == y + 256 * q,
                0 <= x < 256,
                0 <= y < 256,
                p >= 0,
                q >= 0,
        ;
        lemma_le_value_injective(a.drop_first(), b.drop_first());
        assert(a =~= b) by {
            assert forall|i: int| 0 <= i < a.len() implies a[i] == b[i] by {
                if i > 0 {
                    assert(a[i] == a.drop_first()[i - 1]);
                    assert(b[i] == b.drop_first()[i - 1]);
                }
            }
        }
    } else {
        assert(a =~= b);
    }
}

} // verus!
