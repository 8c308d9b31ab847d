use vstd::prelude::*;

verus! {

/// Bits of one slot of a bitset.
pub const CHAR_BIT: usize = 8;

/// Bits that a bitset of 16 slots holds.
pub const BITSET_BITS: usize = 128;

/// Whether bit `bit` of the bitset is set.
pub open spec fn spec_bit(bitset: [u8; 16], bit: int) -> bool {
    (bitset[bit / 8] >> ((bit % 8) as u8)) & 1u8 == 1u8
}

proof fn lemma_set_bit(x: u8, j: u8, k: u8)
    requires
        j < 8,
        k < 8,
    ensures
        (((x | (1u8 << j)) >> k) & 1u8 == 1u8) == (k == j || ((x >> k) & 1u8 == 1u8)),
        (((x & !(1u8 << j)) >> k) & 1u8 == 1u8) == (k != j && ((x >> k) & 1u8 == 1u8)),
        ((x & (1u8 << j)) != 0u8) == ((x >> j) & 1u8 == 1u8),
{
    assert(j < 8 && k < 8 ==> ((((x | (1u8 << j)) >> k) & 1u8 == 1u8) == (k == j || ((x >> k) & 1u8
        == 1u8)))) by (bit_vector);
    assert(j < 8 && k < 8 ==> ((((x & !(1u8 << j)) >> k) & 1u8 == 1u8) == (k != j && ((x >> k)
        & 1u8 == 1u8)))) by (bit_vector);
    assert(j < 8 ==> (((x & (1u8 << j)) != 0u8) == ((x >> j) & 1u8 == 1u8))) by (bit_vector);
}

/// Slots of eight bits that `nb` bits need.
pub fn bitset_slots(nb: usize) -> (slots: usize)
    requires
        nb + 7 <= usize::MAX,
    ensures
        slots == (nb + 7) / 8,
{
    (nb + (CHAR_BIT - 1)) / CHAR_BIT
}

/// Sets bit `bit` and leaves every other bit as it is.
pub fn bitset_set(bitset: &mut [u8; 16], bit: usize)
    requires
        bit < BITSET_BITS,
    ensures
        forall|b: int|
            0 <= b < BITSET_BITS ==> spec_bit(*final(bitset), b) == (b == bit || spec_bit(
                *old(bitset),
                b,
            )),
{
    let slot: usize = bit / CHAR_BIT;
    let j: u8 = (bit % CHAR_BIT) as u8;
    let x: u8 = bitset[slot];
    bitset[slot] = x | (1u8 << j);
    assert forall|b: int| 0 <= b < BITSET_BITS implies spec_bit(*bitset, b) == (b == bit
        || spec_bit(*old(bitset), b)) by {
        if b / 8 == slot as int {
            lemma_set_bit(x, j, (b % 8) as u8);
        }
    }
}

/// Clears bit `bit` and leaves every other bit as it is.
pub fn bitset_clear(bitset: &mut [u8; 16], bit: usize)
    requires
        bit < BITSET_BITS,
    ensures
        forall|b: int|
            0 <= b < BITSET_BITS ==> spec_bit(*final(bitset), b) == (b != bit && spec_bit(
                *old(bitset),
                b,
            )),
{
    let slot: usize = bit / CHAR_BIT;
    let j: u8 = (bit % CHAR_BIT) as u8;
    let x: u8 = bitset[slot];
    bitset[slot] = x & !(1u8 << j);
    assert forall|b: int| 0 <= b < BITSET_BITS implies spec_bit(*bitset, b) == (b != bit
        && spec_bit(*old(bitset), b)) by {
        if b / 8 == slot as int {
            lemma_set_bit(x, j, (b % 8) as u8);
        }
    }
}

/// Whether bit `bit` is set.
pub fn bitset_test(bitset: &[u8; 16], bit: usize) -> (set: bool)
    requires
        bit < BITSET_BITS,
    ensures
        set == spec_bit(*bitset, bit as int),
{
    let j: u8 = (bit % CHAR_BIT) as u8;
    let x: u8 = bitset[bit / CHAR_BIT];
    proof {
        lemma_set_bit(x, j, j);
    }
    (x & (1u8 << j)) != 0
}

} // verus!
