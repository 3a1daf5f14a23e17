//! The input latch: a 16-bit mask of the sixteen logical keys, bit `k` set
//! iff key `k` is currently held. The host's input-polling loop owns and
//! mutates the mask; the CPU only queries it.

use vstd::prelude::*;

verus! {

/// Current state of the sixteen logical keys, as a bitmask.
pub struct Keyboard {
    /// Bit `k` is set iff logical key `k` is currently pressed.
    pub memory: u16,
}

/// True iff bit `key` of `mask` is set.
pub open spec fn key_bit_set(mask: u16, key: u8) -> bool {
    (mask >> key) & 1 == 1
}

/// The lowest-indexed pressed key of a nonzero mask.
pub open spec fn lowest_pressed(mask: u16) -> u8
    decreases mask,
{
    if mask % 2 == 1 || mask / 2 == 0 {
        0
    } else {
        (1 + lowest_pressed(mask / 2)) as u8
    }
}

impl Keyboard {
    /// A latch with no key pressed.
    pub fn new() -> (kb: Keyboard)
        ensures
            kb.memory == 0,
    {
        Keyboard { memory: 0u16 }
    }

    /// True iff at least one key is currently pressed.
    pub fn is_any_key_pressed(&self) -> (r: bool)
        ensures
            r == (self.memory != 0),
    {
        self.memory != 0
    }

    /// True iff the key with the given index is currently pressed.
    pub fn is_key_pressed(&self, key: u8) -> (r: bool)
        requires
            key < 16,
        ensures
            r == key_bit_set(self.memory, key),
    {
        ((self.memory >> key) & 0x01) == 1
    }

    /// The lowest-indexed pressed key, or `None` when no key is pressed.
    pub fn get_key_pressed_index(&self) -> (r: Option<u8>)
        ensures
            match r {
                Some(i) => self.memory != 0 && i == lowest_pressed(self.memory),
                None => self.memory == 0,
            },
    {
        let keys = self.memory;
        let mut i: u8 = 0;
        while i < 16
            invariant
                i <= 16,
                keys == self.memory,
                forall|j: u8| j < i ==> !key_bit_set(keys, j),
            decreases 16 - i,
        {
            if (keys >> i) & 0x0001 == 1 {
                proof {
                    lemma_lowest_pressed(keys, i);
                }
                return Some(i);
            }
            i = i + 1;
        }
        proof {
            lemma_no_bit_means_zero(keys);
        }
        None
    }
}

/// If bit `i` of `mask` is set and no lower bit is, then `i` is the
/// lowest-pressed index.
proof fn lemma_lowest_pressed(mask: u16, i: u8)
    requires
        i < 16,
        key_bit_set(mask, i),
        forall|j: u8| j < i ==> !key_bit_set(mask, j),
    ensures
        mask != 0,
        lowest_pressed(mask) == i,
    decreases i,
{
    assert(mask != 0) by (bit_vector)
        requires
            (mask >> i) & 1 == 1,
    ;
    if i == 0 {
        assert(mask % 2 == 1) by (bit_vector)
            requires
                (mask >> 0u8) & 1 == 1,
        ;
    } else {
        assert(!key_bit_set(mask, 0));
        assert(mask % 2 == 0) by (bit_vector)
            requires
                (mask >> 0u8) & 1 != 1,
        ;
        assert((mask / 2) >> (i - 1) as u8 == mask >> i) by (bit_vector)
            requires
                1 <= i < 16,
        ;
        assert(key_bit_set(mask / 2, (i - 1) as u8));
        assert forall|j: u8| j < i - 1 implies !#[trigger] key_bit_set(mask / 2, j) by {
            assert((mask / 2) >> j == mask >> (j + 1) as u8) by (bit_vector)
                requires
                    j < 15,
            ;
            assert(!key_bit_set(mask, (j + 1) as u8));
        }
        lemma_lowest_pressed(mask / 2, (i - 1) as u8);
    }
}

/// A 16-bit mask with none of its 16 bits set is zero.
proof fn lemma_no_bit_means_zero(mask: u16)
    requires
        forall|j: u8| j < 16 ==> !key_bit_set(mask, j),
    ensures
        mask == 0,
{
    assert(!key_bit_set(mask, 0) && !key_bit_set(mask, 1) && !key_bit_set(mask, 2) && !key_bit_set(
        mask,
        3,
    ) && !key_bit_set(mask, 4) && !key_bit_set(mask, 5) && !key_bit_set(mask, 6) && !key_bit_set(
        mask,
        7,
    ) && !key_bit_set(mask, 8) && !key_bit_set(mask, 9) && !key_bit_set(mask, 10) && !key_bit_set(
        mask,
        11,
    ) && !key_bit_set(mask, 12) && !key_bit_set(mask, 13) && !key_bit_set(mask, 14)
        && !key_bit_set(mask, 15));
    assert(mask == 0) by (bit_vector)
        requires
            (mask >> 0u8) & 1 != 1 && (mask >> 1u8) & 1 != 1 && (mask >> 2u8) & 1 != 1 && (mask
                >> 3u8) & 1 != 1 && (mask >> 4u8) & 1 != 1 && (mask >> 5u8) & 1 != 1 && (mask
                >> 6u8) & 1 != 1 && (mask >> 7u8) & 1 != 1 && (mask >> 8u8) & 1 != 1 && (mask
                >> 9u8) & 1 != 1 && (mask >> 10u8) & 1 != 1 && (mask >> 11u8) & 1 != 1 && (mask
                >> 12u8) & 1 != 1 && (mask >> 13u8) & 1 != 1 && (mask >> 14u8) & 1 != 1 && (mask
                >> 15u8) & 1 != 1,
    ;
}

} // verus!
