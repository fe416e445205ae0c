//! Lookup index generation: one data byte yields the table indices of its two hex digits.
use vstd::prelude::*;

verus! {

/// The low nibble of a byte, as a lookup index.
pub open spec fn low_index(data: u8) -> usize {
    (data & 0x0f) as usize
}

/// The high nibble of a byte, as a lookup index.
pub open spec fn high_index(data: u8) -> usize {
    ((data >> 4u8) & 0x0f) as usize
}

/// Both nibble indices of a byte are table indices, and together they give the byte back.
pub proof fn lemma_nibble_indices(data: u8)
    ensures
        low_index(data) < 16,
        high_index(data) < 16,
        low_index(data) == data % 16,
        high_index(data) == data / 16,
{
    assert(data & 0x0f < 16 && (data >> 4u8) & 0x0f < 16 && data & 0x0f == data % 16 && (data
        >> 4u8) & 0x0f == data / 16) by (bit_vector);
}

/// Generator of character lookup indices.
///
/// A platform may back this with a hardware unit (an interpolator that masks and
/// shifts in one step); `NibbleSplit` is the portable form.
pub trait Interp {
    /// Configure the generator; done once, before the first `run`.
    fn init(&mut self);

    /// Generate the (high nibble, low nibble) character lookup indices of a byte.
    fn run(&mut self, data: u8) -> (r: (usize, usize))
        ensures
            r.0 == high_index(data),
            r.1 == low_index(data),
    ;
}

/// Lookup index generation by plain masking and shifting.
pub struct NibbleSplit;

impl Interp for NibbleSplit {
    fn init(&mut self) {
    }

    fn run(&mut self, data: u8) -> (r: (usize, usize)) {
        let lo = (data & 0x0f) as usize;
        let hi = ((data >> 4u8) & 0x0f) as usize;
        (hi, lo)
    }
}

} // verus!
