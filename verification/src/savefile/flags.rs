//! Reading and changing single flags of the bit-packed fields.

use vstd::prelude::*;

verus! {

/// The mask of world `world` in the header's unlocked-worlds field: bit
/// `world`, or nothing where the field has no such bit.
pub open spec fn world_mask(world: int) -> u16 {
    if 0 <= world < 16 {
        1u16 << (world as u16)
    } else {
        0
    }
}

/// Computes the mask of a world in the header's unlocked-worlds field.
pub fn world_bit(world: usize) -> (mask: u16)
    ensures
        mask == world_mask(world as int),
{
    if world < 16 {
        1u16 << (world as u16)
    } else {
        0
    }
}

/// Whether any bit of `mask` is set in `flags`.
pub fn has_flag_u8(flags: u8, mask: u8) -> (on: bool)
    ensures
        on == (flags & mask != 0),
{
    flags & mask != 0
}

/// `flags` with the bits of `mask` switched on or off.
pub fn with_flag_u8(flags: u8, mask: u8, on: bool) -> (changed: u8)
    ensures
        changed == if on {
            flags | mask
        } else {
            flags & !mask
        },
{
    if on {
        flags | mask
    } else {
        flags & !mask
    }
}

/// Whether any bit of `mask` is set in `flags`.
pub fn has_flag_u16(flags: u16, mask: u16) -> (on: bool)
    ensures
        on == (flags & mask != 0),
{
    flags & mask != 0
}

/// `flags` with the bits of `mask` switched on or off.
pub fn with_flag_u16(flags: u16, mask: u16, on: bool) -> (changed: u16)
    ensures
        changed == if on {
            flags | mask
        } else {
            flags & !mask
        },
{
    if on {
        flags | mask
    } else {
        flags & !mask
    }
}

/// Whether any bit of `mask` is set in `flags`.
pub fn has_flag_u32(flags: u32, mask: u32) -> (on: bool)
    ensures
        on == (flags & mask != 0),
{
    flags & mask != 0
}

/// `flags` with the bits of `mask` switched on or off.
pub fn with_flag_u32(flags: u32, mask: u32, on: bool) -> (changed: u32)
    ensures
        changed == if on {
            flags | mask
        } else {
            flags & !mask
        },
{
    if on {
        flags | mask
    } else {
        flags & !mask
    }
}

/// A flag that was switched reads as it was set, and no bit outside the
/// mask changes.
pub proof fn lemma_flag_reads_as_set_u8(flags: u8, mask: u8, on: bool)
    requires
        mask != 0,
    ensures
        on ==> (flags | mask) & mask != 0 && (flags | mask) & !mask == flags & !mask,
        !on ==> (flags & !mask) & mask == 0 && (flags & !mask) & !mask == flags & !mask,
{
    assert(mask != 0 ==> (flags | mask) & mask != 0) by (bit_vector);
    assert((flags | mask) & !mask == flags & !mask) by (bit_vector);
    assert((flags & !mask) & mask == 0) by (bit_vector);
    assert((flags & !mask) & !mask == flags & !mask) by (bit_vector);
}

/// A flag that was switched reads as it was set, and no bit outside the
/// mask changes.
pub proof fn lemma_flag_reads_as_set_u16(flags: u16, mask: u16, on: bool)
    requires
        mask != 0,
    ensures
        on ==> (flags | mask) & mask != 0 && (flags | mask) & !mask == flags & !mask,
        !on ==> (flags & !mask) & mask == 0 && (flags & !mask) & !mask == flags & !mask,
{
    assert(mask != 0 ==> (flags | mask) & mask != 0) by (bit_vector);
    assert((flags | mask) & !mask == flags & !mask) by (bit_vector);
    assert((flags & !mask) & mask == 0) by (bit_vector);
    assert((flags & !mask) & !mask == flags & !mask) by (bit_vector);
}

/// A flag that was switched reads as it was set, and no bit outside the
/// mask changes.
pub proof fn lemma_flag_reads_as_set_u32(flags: u32, mask: u32, on: bool)
    requires
        mask != 0,
    ensures
        on ==> (flags | mask) & mask != 0 && (flags | mask) & !mask == flags & !mask,
        !on ==> (flags & !mask) & mask == 0 && (flags & !mask) & !mask == flags & !mask,
{
    assert(mask != 0 ==> (flags | mask) & mask != 0) by (bit_vector);
    assert((flags | mask) & !mask == flags & !mask) by (bit_vector);
    assert((flags & !mask) & mask == 0) by (bit_vector);
    assert((flags & !mask) & !mask == flags & !mask) by (bit_vector);
}

/// Each of the sixteen worlds that the field has room for has a bit of
/// its own.
pub proof fn lemma_world_masks_are_distinct_bits(a: int, b: int)
    requires
        0 <= a < 16,
        0 <= b < 16,
    ensures
        world_mask(a) != 0,
        a != b ==> world_mask(a) & world_mask(b) == 0,
{
    let x = a as u16;
    let y = b as u16;
    assert(x < 16 ==> 1u16 << x != 0) by (bit_vector);
    assert(x < 16 && y < 16 && x != y ==> (1u16 << x) & (1u16 << y) == 0) by (bit_vector);
}

} // verus!
