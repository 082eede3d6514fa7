//! Bit-level arithmetic shared by the bus and shift-register drivers.
//!
//! Bit `i` of a number is defined arithmetically; a list of bits is packed
//! with index 0 as the least significant bit.

use vstd::prelude::*;
use vstd::arithmetic::power2::{pow2, lemma_pow2_pos, lemma_pow2_unfold, lemma2_to64};
use vstd::arithmetic::div_mod::{lemma_mod_breakdown, lemma_small_mod};
use vstd::bits::{lemma_u8_shr_is_div, lemma_u16_shr_is_div, lemma_u32_shr_is_div};
use vstd::bits::{lemma_u8_shl_is_mul, lemma_u16_shl_is_mul, lemma_u32_shl_is_mul};

verus! {

/// Bit `i` of `value`, bit 0 being the least significant.
pub open spec fn bit_at(value: nat, i: nat) -> bool {
    (value / pow2(i)) % 2 == 1
}

/// The lowest `width` bits of `value`, least significant first.
pub open spec fn bits_of(value: nat, width: nat) -> Seq<bool> {
    Seq::new(width, |i: int| bit_at(value, i as nat))
}

/// The weight that a bit contributes at position `i`.
pub open spec fn bit_weight(bit: bool, i: nat) -> nat {
    if bit {
        pow2(i)
    } else {
        0
    }
}

/// The number whose binary digits are `bits`, least significant first.
pub open spec fn pack_bits(bits: Seq<bool>) -> nat
    decreases bits.len(),
{
    if bits.len() == 0 {
        0
    } else {
        pack_bits(bits.drop_last()) + bit_weight(bits.last(), (bits.len() - 1) as nat)
    }
}

/// Packing one more bit adds that bit's weight.
pub proof fn lemma_pack_bits_step(bits: Seq<bool>, i: int)
    requires
        0 <= i < bits.len(),
    ensures
        pack_bits(bits.take(i + 1)) == pack_bits(bits.take(i)) + bit_weight(bits[i], i as nat),
{
    let prefix = bits.take(i + 1);
    assert(prefix.drop_last() =~= bits.take(i));
}

/// A packed number fits in as many bits as were packed.
pub proof fn lemma_pack_bits_bound(bits: Seq<bool>)
    ensures
        pack_bits(bits) < pow2(bits.len()),
    decreases bits.len(),
{
    if bits.len() == 0 {
        lemma2_to64();
    } else {
        lemma_pack_bits_bound(bits.drop_last());
        lemma_pow2_unfold(bits.len());
    }
}

/// Spreading a number over `width` lines and packing the lines again keeps
/// exactly its lowest `width` bits.
pub proof fn lemma_pack_bits_of(value: nat, width: nat)
    ensures
        pack_bits(bits_of(value, width)) == value % pow2(width),
    decreases width,
{
    if width == 0 {
        lemma2_to64();
    } else {
        let w = (width - 1) as nat;
        let bits = bits_of(value, width);
        assert(bits.drop_last() =~= bits_of(value, w));
        lemma_pack_bits_of(value, w);
        lemma_pow2_pos(w);
        lemma_pow2_unfold(width);
        lemma_mod_breakdown(value as int, pow2(w) as int, 2);
    }
}

/// A number that fits in `width` bits survives being spread over `width`
/// lines and packed again.
pub proof fn lemma_pack_bits_of_small(value: nat, width: nat)
    requires
        value < pow2(width),
    ensures
        pack_bits(bits_of(value, width)) == value,
{
    lemma_pack_bits_of(value, width);
    lemma_small_mod(value, pow2(width));
}

/// Bit `i` of a byte.
pub fn bit_of_u8(value: u8, i: usize) -> (b: bool)
    requires
        i < 8,
    ensures
        b == bit_at(value as nat, i as nat),
{
    let shifted: u8 = value >> (i as u8);
    proof {
        lemma_u8_shr_is_div(value, i as u8);
        assert(shifted & 1 == shifted % 2) by (bit_vector);
    }
    (shifted & 1) != 0
}

/// Bit `i` of a 16-bit number.
pub fn bit_of_u16(value: u16, i: usize) -> (b: bool)
    requires
        i < 16,
    ensures
        b == bit_at(value as nat, i as nat),
{
    let shifted: u16 = value >> (i as u16);
    proof {
        lemma_u16_shr_is_div(value, i as u16);
        assert(shifted & 1 == shifted % 2) by (bit_vector);
    }
    (shifted & 1) != 0
}

/// Bit `i` of a 32-bit number.
pub fn bit_of_u32(value: u32, i: usize) -> (b: bool)
    requires
        i < 32,
    ensures
        b == bit_at(value as nat, i as nat),
{
    let shifted: u32 = value >> (i as u32);
    proof {
        lemma_u32_shr_is_div(value, i as u32);
        assert(shifted & 1 == shifted % 2) by (bit_vector);
    }
    (shifted & 1) != 0
}

/// Sets bit `i` of a byte whose bits from `i` upwards are all clear.
pub(crate) fn with_bit_u8(value: u8, i: usize) -> (r: u8)
    requires
        i < 8,
        value < pow2(i as nat),
    ensures
        r == value + pow2(i as nat),
{
    let mask: u8 = 1u8 << (i as u8);
    proof {
        lemma2_to64();
        lemma_u8_shl_is_mul(1u8, i as u8);
        let s = i as u8;
        assert(value | (1u8 << s) == value + (1u8 << s)) by (bit_vector)
            requires
                s < 8,
                value < (1u8 << s),
        ;
    }
    value | mask
}

/// Sets bit `i` of a 16-bit number whose bits from `i` upwards are all clear.
pub(crate) fn with_bit_u16(value: u16, i: usize) -> (r: u16)
    requires
        i < 16,
        value < pow2(i as nat),
    ensures
        r == value + pow2(i as nat),
{
    let mask: u16 = 1u16 << (i as u16);
    proof {
        lemma2_to64();
        lemma_u16_shl_is_mul(1u16, i as u16);
        let s = i as u16;
        assert(value | (1u16 << s) == value + (1u16 << s)) by (bit_vector)
            requires
                s < 16,
                value < (1u16 << s),
        ;
    }
    value | mask
}

/// Sets bit `i` of a 32-bit number whose bits from `i` upwards are all clear.
pub(crate) fn with_bit_u32(value: u32, i: usize) -> (r: u32)
    requires
        i < 32,
        value < pow2(i as nat),
    ensures
        r == value + pow2(i as nat),
{
    let mask: u32 = 1u32 << (i as u32);
    proof {
        lemma2_to64();
        lemma_u32_shl_is_mul(1u32, i as u32);
        let s = i as u32;
        assert(value | (1u32 << s) == value + (1u32 << s)) by (bit_vector)
            requires
                s < 32,
                value < (1u32 << s),
        ;
    }
    value | mask
}

} // verus!
