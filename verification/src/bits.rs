use vstd::prelude::*;

verus! {

/// Whether bit `i` (weight `2^i`) of `v` is set.
pub open spec fn bit32(v: u32, i: int) -> bool {
    0 <= i < 32 && ((v >> (i as u32)) & 1u32) == 1u32
}

/// Whether bit `i` (weight `2^i`) of byte `b` is set.
pub open spec fn bit8(b: u8, i: int) -> bool {
    0 <= i < 8 && ((b >> (i as u8)) & 1u8) == 1u8
}

/// Two 32-bit words that agree on every bit are equal.
pub proof fn lemma_bit32_ext(a: u32, b: u32)
    requires
        forall|i: int| 0 <= i < 32 ==> (bit32(a, i) == bit32(b, i)),
    ensures
        a == b,
{
    assert(bit32(a, 0) == bit32(b, 0) && bit32(a, 1) == bit32(b, 1) && bit32(a, 2) == bit32(b, 2)
        && bit32(a, 3) == bit32(b, 3) && bit32(a, 4) == bit32(b, 4) && bit32(a, 5) == bit32(b, 5)
        && bit32(a, 6) == bit32(b, 6) && bit32(a, 7) == bit32(b, 7) && bit32(a, 8) == bit32(b, 8)
        && bit32(a, 9) == bit32(b, 9) && bit32(a, 10) == bit32(b, 10) && bit32(a, 11) == bit32(
        b,
        11,
    ) && bit32(a, 12) == bit32(b, 12) && bit32(a, 13) == bit32(b, 13) && bit32(a, 14) == bit32(
        b,
        14,
    ) && bit32(a, 15) == bit32(b, 15) && bit32(a, 16) == bit32(b, 16) && bit32(a, 17) == bit32(
        b,
        17,
    ) && bit32(a, 18) == bit32(b, 18) && bit32(a, 19) == bit32(b, 19) && bit32(a, 20) == bit32(
        b,
        20,
    ) && bit32(a, 21) == bit32(b, 21) && bit32(a, 22) == bit32(b, 22) && bit32(a, 23) == bit32(
        b,
        23,
    ) && bit32(a, 24) == bit32(b, 24) && bit32(a, 25) == bit32(b, 25) && bit32(a, 26) == bit32(
        b,
        26,
    ) && bit32(a, 27) == bit32(b, 27) && bit32(a, 28) == bit32(b, 28) && bit32(a, 29) == bit32(
        b,
        29,
    ) && bit32(a, 30) == bit32(b, 30) && bit32(a, 31) == bit32(b, 31));
    assert(((((a >> 0u32) & 1u32 == 1u32) == ((b >> 0u32) & 1u32 == 1u32)) && (((a >> 1u32) & 1u32
        == 1u32) == ((b >> 1u32) & 1u32 == 1u32)) && (((a >> 2u32) & 1u32 == 1u32) == ((b >> 2u32)
        & 1u32 == 1u32)) && (((a >> 3u32) & 1u32 == 1u32) == ((b >> 3u32) & 1u32 == 1u32)) && (((a
        >> 4u32) & 1u32 == 1u32) == ((b >> 4u32) & 1u32 == 1u32)) && (((a >> 5u32) & 1u32 == 1u32)
        == ((b >> 5u32) & 1u32 == 1u32)) && (((a >> 6u32) & 1u32 == 1u32) == ((b >> 6u32) & 1u32
        == 1u32)) && (((a >> 7u32) & 1u32 == 1u32) == ((b >> 7u32) & 1u32 == 1u32)) && (((a
        >> 8u32) & 1u32 == 1u32) == ((b >> 8u32) & 1u32 == 1u32)) && (((a >> 9u32) & 1u32 == 1u32)
        == ((b >> 9u32) & 1u32 == 1u32)) && (((a >> 10u32) & 1u32 == 1u32) == ((b >> 10u32) & 1u32
        == 1u32)) && (((a >> 11u32) & 1u32 == 1u32) == ((b >> 11u32) & 1u32 == 1u32)) && (((a
        >> 12u32) & 1u32 == 1u32) == ((b >> 12u32) & 1u32 == 1u32)) && (((a >> 13u32) & 1u32
        == 1u32) == ((b >> 13u32) & 1u32 == 1u32)) && (((a >> 14u32) & 1u32 == 1u32) == ((b
        >> 14u32) & 1u32 == 1u32)) && (((a >> 15u32) & 1u32 == 1u32) == ((b >> 15u32) & 1u32
        == 1u32)) && (((a >> 16u32) & 1u32 == 1u32) == ((b >> 16u32) & 1u32 == 1u32)) && (((a
        >> 17u32) & 1u32 == 1u32) == ((b >> 17u32) & 1u32 == 1u32)) && (((a >> 18u32) & 1u32
        == 1u32) == ((b >> 18u32) & 1u32 == 1u32)) && (((a >> 19u32) & 1u32 == 1u32) == ((b
        >> 19u32) & 1u32 == 1u32)) && (((a >> 20u32) & 1u32 == 1u32) == ((b >> 20u32) & 1u32
        == 1u32)) && (((a >> 21u32) & 1u32 == 1u32) == ((b >> 21u32) & 1u32 == 1u32)) && (((a
        >> 22u32) & 1u32 == 1u32) == ((b >> 22u32) & 1u32 == 1u32)) && (((a >> 23u32) & 1u32
        == 1u32) == ((b >> 23u32) & 1u32 == 1u32)) && (((a >> 24u32) & 1u32 == 1u32) == ((b
        >> 24u32) & 1u32 == 1u32)) && (((a >> 25u32) & 1u32 == 1u32) == ((b >> 25u32) & 1u32
        == 1u32)) && (((a >> 26u32) & 1u32 == 1u32) == ((b >> 26u32) & 1u32 == 1u32)) && (((a
        >> 27u32) & 1u32 == 1u32) == ((b >> 27u32) & 1u32 == 1u32)) && (((a >> 28u32) & 1u32
        == 1u32) == ((b >> 28u32) & 1u32 == 1u32)) && (((a >> 29u32) & 1u32 == 1u32) == ((b
        >> 29u32) & 1u32 == 1u32)) && (((a >> 30u32) & 1u32 == 1u32) == ((b >> 30u32) & 1u32
        == 1u32)) && (((a >> 31u32) & 1u32 == 1u32) == ((b >> 31u32) & 1u32 == 1u32))) ==> a == b)
        by (bit_vector);
}

/// Setting bit `x` by an or-mask sets exactly that bit and keeps the rest.
pub proof fn lemma_or_bit(v: u32, x: u32, j: int)
    requires
        x < 32,
    ensures
        bit32(v | (1u32 << x), j) == (j == x || bit32(v, j)),
{
    if 0 <= j < 32 {
        let ju = j as u32;
        assert(x < 32 && ju < 32 ==> ((((v | (1u32 << x)) >> ju) & 1u32) == 1u32) == (ju == x || (
        ((v >> ju) & 1u32) == 1u32))) by (bit_vector);
    }
}

/// Testing a bit by an and-mask agrees with the shift-based bit reading.
pub proof fn lemma_mask_bit(v: u32, x: u32)
    requires
        x < 32,
    ensures
        (v & (1u32 << x) != 0) == bit32(v, x as int),
{
    assert(x < 32 ==> (v & (1u32 << x) != 0) == (((v >> x) & 1u32) == 1u32)) by (bit_vector);
}

/// A value below `2^w` has no bit set at position `w` or above.
pub proof fn lemma_value_fits_width(n: u32, w: int)
    requires
        0 <= w < 32,
        n < (1u32 << (w as u32)),
    ensures
        forall|j: int| w <= j < 32 ==> !bit32(n, j),
{
    let wu = w as u32;
    assert forall|j: int| w <= j < 32 implies !bit32(n, j) by {
        let ju = j as u32;
        assert(wu < 32 && wu <= ju < 32 && n < (1u32 << wu) ==> ((n >> ju) & 1u32) == 0u32)
            by (bit_vector);
    }
}

/// Widening a byte to 32 bits keeps its low eight bits and sets no others.
pub proof fn lemma_u8_widen_bit(b: u8, i: int)
    requires
        0 <= i < 32,
    ensures
        bit32(b as u32, i) == (i < 8 && bit8(b, i)),
{
    let iu = i as u32;
    if i < 8 {
        let ib = i as u8;
        assert(iu < 8 && (ib as u32) == iu ==> ((((b as u32) >> iu) & 1u32) == 1u32) == (((b
            >> ib) & 1u8) == 1u8)) by (bit_vector);
    } else {
        assert(8 <= iu < 32 ==> (((b as u32) >> iu) & 1u32) == 0u32) by (bit_vector);
    }
}

/// Taking the low byte of a 32-bit word keeps its low eight bits.
pub proof fn lemma_u32_low_byte_bit(v: u32, i: int)
    requires
        0 <= i < 8,
    ensures
        bit8((v & 0xff) as u8, i) == bit32(v, i),
{
    let iu = i as u32;
    let ib = i as u8;
    assert(iu < 8 && (ib as u32) == iu ==> ((((v & 0xff) as u8) >> ib) & 1u8 == 1u8) == (((v >> iu)
        & 1u32) == 1u32)) by (bit_vector);
}

/// The bit-order-reversed form of a byte: bit `i` of the result is bit
/// `7 - i` of the argument, the translation between the shift register's
/// most-significant-bit-first order and the vector's bit-index order.
pub open spec fn spec_reverse8(x: u8) -> u8 {
    (((x >> 7) & 1) | ((((x >> 6) & 1) << 1) | ((((x >> 5) & 1) << 2) | ((((x >> 4) & 1) << 3) | (
    (((x >> 3) & 1) << 4) | ((((x >> 2) & 1) << 5) | ((((x >> 1) & 1) << 6) | ((x & 1) << 7))))))))
}

pub fn reverse8(x: u8) -> (r: u8)
    ensures
        r == spec_reverse8(x),
{
    ((x >> 7) & 1) | ((((x >> 6) & 1) << 1) | ((((x >> 5) & 1) << 2) | ((((x >> 4) & 1) << 3) | ((
    ((x >> 3) & 1) << 4) | ((((x >> 2) & 1) << 5) | ((((x >> 1) & 1) << 6) | ((x & 1) << 7)))))))
}

/// Bit `i` of the reversed byte is bit `7 - i` of the original.
pub proof fn lemma_reverse8_bit(x: u8, i: int)
    requires
        0 <= i < 8,
    ensures
        bit8(spec_reverse8(x), i) == bit8(x, 7 - i),
{
    let iu = i as u8;
    let ku = (7 - i) as u8;
    assert(iu < 8 && ku < 8 && iu + ku == 7 ==> ((((((x >> 7) & 1) | ((((x >> 6) & 1) << 1) | ((((x
        >> 5) & 1) << 2) | ((((x >> 4) & 1) << 3) | ((((x >> 3) & 1) << 4) | ((((x >> 2) & 1) << 5)
        | ((((x >> 1) & 1) << 6) | ((x & 1) << 7)))))))) >> iu) & 1u8) == 1u8) == (((x >> ku) & 1u8)
        == 1u8)) by (bit_vector);
}

} // verus!
