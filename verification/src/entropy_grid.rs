//! A 256-bit number that the user stirs bit by bit, to be mixed into the
//! seed of a new wallet.

use crate::outside::{hex_encode, random_bytes32, spec_hex_encode};
use vstd::prelude::*;

verus! {

/// The number of bits of the grid.
pub const ENTROPY_BITS: usize = 256;

/// The number of bits in a row of the grid.
pub const ENTROPY_COLUMNS: usize = 32;

/// The number of rows of the grid.
pub const ENTROPY_ROWS: usize = 8;

/// A grid of 256 bits, and the position of the bit that was changed last.
#[derive(Clone, Copy, Debug, PartialEq, Eq)]
pub struct U256EntropyGrid {
    random_number: [u8; 32],
    last_bit_changed: u8,
}

/// The byte `byte` with bit `bit` changed.
pub open spec fn spec_toggled(byte: u8, bit: usize) -> u8 {
    byte ^ (1u8 << bit)
}

/// The bytes of `a` and `b` combined place by place with exclusive or.
pub open spec fn spec_mixed(a: Seq<u8>, b: Seq<u8>) -> Seq<u8> {
    Seq::new(a.len(), |i: int| a[i] ^ b[i])
}

impl U256EntropyGrid {
    /// The 256 bits of the grid.
    pub closed spec fn number(&self) -> Seq<u8> {
        self.random_number@
    }

    /// The position of the bit that was changed last.
    pub closed spec fn last_changed(&self) -> u8 {
        self.last_bit_changed
    }

    /// Create a new instance with a random number.
    pub fn new() -> (grid: U256EntropyGrid)
        ensures
            grid.number().len() == 32,
            grid.last_changed() == 0,
    {
        Self::from_number(random_bytes32())
    }

    /// A grid that holds the given number; no bit has been changed yet.
    pub fn from_number(random_number: [u8; 32]) -> (grid: U256EntropyGrid)
        ensures
            grid.number() == random_number@,
            grid.last_changed() == 0,
    {
        U256EntropyGrid { random_number, last_bit_changed: 0 }
    }

    /// The number of the grid as it stands.
    pub fn random_number(&self) -> (number: [u8; 32])
        ensures
            number@ == self.number(),
    {
        self.random_number
    }

    /// The position of the bit that was changed last.
    pub fn last_bit_changed(&self) -> (position: u8)
        ensures
            position == self.last_changed(),
    {
        self.last_bit_changed
    }

    /// Tells whether the bit at `bit_position` is set.
    pub fn bit(&self, bit_position: u8) -> (set: bool)
        ensures
            set == ((self.number()[bit_position as int / 8] >> ((bit_position % 8) as u8)) & 1
                == 1),
    {
        let byte_index: usize = (bit_position / 8) as usize;
        let bit_in_byte: u8 = bit_position % 8;
        (self.random_number[byte_index] >> bit_in_byte) & 1 == 1
    }

    /// Check if the bit at the given position is another than the bit that
    /// was changed last.
    pub fn was_bit_different(&self, bit_position: u8) -> (different: bool)
        ensures
            different == (self.last_changed() != bit_position),
    {
        self.last_bit_changed != bit_position
    }

    /// Toggle the bit at the given byte and bit position, and remember its
    /// position.
    pub fn toggle_bit(&mut self, byte_index: usize, bit_in_byte: usize)
        requires
            byte_index < 32,
            bit_in_byte < 8,
        ensures
            final(self).number() == old(self).number().update(
                byte_index as int,
                spec_toggled(old(self).number()[byte_index as int], bit_in_byte),
            ),
            final(self).last_changed() == byte_index * 8 + bit_in_byte,
    {
        let mask: u8 = 1u8 << bit_in_byte;
        let byte = self.random_number[byte_index];
        self.random_number[byte_index] = byte ^ mask;
        self.last_bit_changed = (byte_index * 8 + bit_in_byte) as u8;
        assert(self.random_number@ =~= old(self).random_number@.update(
            byte_index as int,
            spec_toggled(old(self).random_number@[byte_index as int], bit_in_byte),
        ));
    }

    /// What the pointer does to the bit at `bit_position`: the bit is
    /// toggled when it is clicked, and when the pointer comes to it from
    /// another bit.
    pub fn touch(&mut self, bit_position: u8, hovered: bool, clicked: bool) -> (toggled: bool)
        ensures
            toggled == (hovered && old(self).last_changed() != bit_position || clicked),
            toggled ==> final(self).number() == old(self).number().update(
                bit_position as int / 8,
                spec_toggled(
                    old(self).number()[bit_position as int / 8],
                    (bit_position % 8) as usize,
                ),
            ) && final(self).last_changed() == bit_position,
            !toggled ==> *final(self) == *old(self),
    {
        if hovered && self.was_bit_different(bit_position) || clicked {
            let byte_index: usize = (bit_position / 8) as usize;
            let bit_in_byte: usize = (bit_position % 8) as usize;
            self.toggle_bit(byte_index, bit_in_byte);
            true
        } else {
            false
        }
    }

    /// The number of the grid combined with `fresh`, place by place, with
    /// exclusive or.
    pub fn mixed_with(&self, fresh: &[u8; 32]) -> (mixed: [u8; 32])
        ensures
            mixed@ == spec_mixed(self.number(), fresh@),
    {
        let mut result = [0u8; 32];
        let mut i: usize = 0;
        while i < 32
            invariant
                i <= 32,
                forall|k: int| 0 <= k < i ==> result@[k] == self.random_number@[k] ^ fresh@[k],
            decreases 32 - i,
        {
            result[i] = self.random_number[i] ^ fresh[i];
            i = i + 1;
        }
        assert(result@ =~= spec_mixed(self.random_number@, fresh@));
        result
    }

    /// Generate a new random number and combine it with the number of the
    /// grid. What comes back is random.
    pub fn random_number_with_user_input(&self) -> (mixed: [u8; 32])
        ensures
            mixed@.len() == 32,
    {
        let fresh = random_bytes32();
        self.mixed_with(&fresh)
    }

    /// The number of the grid in hexadecimal digits, as it is shown to the
    /// user.
    pub fn number_as_hex(&self) -> (text: String)
        ensures
            text@ == spec_hex_encode(self.number()),
    {
        hex_encode(self.random_number.as_slice())
    }
}

/// Toggling a bit twice gives the number back.
pub proof fn lemma_toggle_twice(byte: u8, bit: usize)
    requires
        bit < 8,
    ensures
        spec_toggled(spec_toggled(byte, bit), bit) == byte,
{
    let mask: u8 = 1u8 << bit;
    assert((byte ^ mask) ^ mask == byte) by (bit_vector);
}

/// Mixing twice with the same bytes gives the number back.
pub proof fn lemma_mix_twice(a: Seq<u8>, b: Seq<u8>)
    requires
        a.len() == b.len(),
    ensures
        spec_mixed(spec_mixed(a, b), b) == a,
{
    assert forall|i: int| 0 <= i < a.len() implies spec_mixed(spec_mixed(a, b), b)[i] == a[i] by {
        let x = a[i];
        let y = b[i];
        assert((x ^ y) ^ y == x) by (bit_vector);
    }
    assert(spec_mixed(spec_mixed(a, b), b) =~= a);
}

} // verus!
