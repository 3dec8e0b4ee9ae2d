//! Register-word arithmetic for 32-bit memory-mapped registers.
//!
//! A hardware register access is a volatile load or store of a 32-bit
//! word; everything between the load and the store is ordinary bit
//! arithmetic.  These functions are that middle part: each takes the word
//! a register currently holds and returns the word to store back, with a
//! contract that pins every bit of the result.  The volatile accesses
//! themselves belong to the unverified shell around the library.

use vstd::prelude::*;

verus! {

/// Whether bit `idx` of `val` is set.
pub open spec fn bit_is_set(val: u32, idx: u32) -> bool
    recommends
        idx < 32,
{
    val & (1u32 << idx) != 0
}

/// Replaces the field of `num_bits` bits starting at `start_bit` with the
/// low bits of `value_to_set`, leaving every other bit of `current`
/// unchanged.
pub fn reg_write_bits(current: u32, value_to_set: u32, start_bit: u32, num_bits: u32) -> (updated: u32)
    requires
        0 < num_bits <= 32,
        start_bit < 32,
        start_bit + num_bits <= 32,
    ensures
        forall|k: u32|
            start_bit <= k < start_bit + num_bits ==> bit_is_set(updated, k) == bit_is_set(
                value_to_set,
                (k - start_bit) as u32,
            ),
        forall|k: u32|
            k < 32 && !(start_bit <= k < start_bit + num_bits) ==> bit_is_set(updated, k)
                == bit_is_set(current, k),
{
    let bits_of_ones_mask: u32 = if num_bits == 32 {
        0xFFFF_FFFF
    } else {
        let pow: u32 = 1u32 << num_bits;
        proof {
            assert(pow >= 1) by (bit_vector)
                requires
                    num_bits < 32,
                    pow == 1u32 << num_bits,
            ;
        }
        pow - 1
    };
    let clear_mask: u32 = bits_of_ones_mask << start_bit;
    let shifted_value_to_set: u32 = (value_to_set << start_bit) & clear_mask;
    let updated: u32 = (current & !clear_mask) | shifted_value_to_set;
    proof {
        let ones = bits_of_ones_mask;
        assert forall|k: u32| start_bit <= k < start_bit + num_bits implies bit_is_set(
            updated,
            k,
        ) == bit_is_set(value_to_set, (k - start_bit) as u32) by {
            assert(bit_is_set(updated, k) == bit_is_set(value_to_set, (k - start_bit) as u32))
                by (bit_vector)
                requires
                    0 < num_bits <= 32,
                    start_bit < 32,
                    start_bit + num_bits <= 32,
                    start_bit <= k < start_bit + num_bits,
                    num_bits == 32 ==> ones == 0xFFFF_FFFFu32,
                    num_bits < 32 ==> ones == (1u32 << num_bits) - 1,
                    updated == (current & !(ones << start_bit)) | ((value_to_set << start_bit) & (
                    ones << start_bit)),
            ;
        }
        assert forall|k: u32|
            k < 32 && !(start_bit <= k < start_bit + num_bits) implies bit_is_set(updated, k)
            == bit_is_set(current, k) by {
            assert(bit_is_set(updated, k) == bit_is_set(current, k)) by (bit_vector)
                requires
                    0 < num_bits <= 32,
                    start_bit < 32,
                    start_bit + num_bits <= 32,
                    k < 32,
                    !(start_bit <= k < start_bit + num_bits),
                    num_bits == 32 ==> ones == 0xFFFF_FFFFu32,
                    num_bits < 32 ==> ones == (1u32 << num_bits) - 1,
                    updated == (current & !(ones << start_bit)) | ((value_to_set << start_bit) & (
                    ones << start_bit)),
            ;
        }
    }
    updated
}

/// Sets (`bit_value` true) or clears (`bit_value` false) bit
/// `bit_position`, leaving every other bit of `current` unchanged.
pub fn reg_write_bit(current: u32, bit_position: u32, bit_value: bool) -> (updated: u32)
    requires
        bit_position < 32,
    ensures
        bit_is_set(updated, bit_position) == bit_value,
        forall|k: u32|
            k < 32 && k != bit_position ==> bit_is_set(updated, k) == bit_is_set(current, k),
{
    let bit_mask: u32 = 1u32 << bit_position;
    let updated: u32 = if bit_value {
        current | bit_mask
    } else {
        current & !bit_mask
    };
    proof {
        assert(bit_is_set(updated, bit_position) == bit_value && forall|k: u32|
            k < 32 && k != bit_position ==> bit_is_set(updated, k) == bit_is_set(current, k))
            by (bit_vector)
            requires
                bit_position < 32,
                updated == if bit_value {
                    current | (1u32 << bit_position)
                } else {
                    current & !(1u32 << bit_position)
                },
        ;
    }
    updated
}

/// Whether bit `bit_position` of `current` is set.
pub fn reg_read_bit_value(current: u32, bit_position: u32) -> (bit: bool)
    requires
        bit_position < 32,
    ensures
        bit == bit_is_set(current, bit_position),
{
    current & (1u32 << bit_position) != 0
}

} // verus!
