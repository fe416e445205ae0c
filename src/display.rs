//! Display chain controller: logical display state and its rendering into a bitstream.
use vstd::prelude::*;

use crate::lookup::{high_index, lemma_nibble_indices, low_index, Interp};
use crate::segments::{char_pattern, char_pattern_spec, SEG_DP};

verus! {

/// Maximum display chain length (number of hex digits).
pub const CHAIN_LENGTH: usize = 32;

/// Maximum size of buffer that can be displayed (each nibble corresponds to one display digit).
pub const DATA_LENGTH: usize = CHAIN_LENGTH / 2;

/// Data which modifies the display state.
pub enum DisplayData<'a> {
    /// Turn on all digits (decimal points are unaffected).
    AllOn,
    /// Turn off (blank) all digits (decimal points are unaffected).
    AllOff,
    /// Turn on those digits which are marked `true`, blank all others (decimal points are unaffected).
    On(&'a [bool; CHAIN_LENGTH]),
    /// Set the decimal point for all digits which are marked `true`, clear it for all others.
    DecimalPoints(&'a [bool; CHAIN_LENGTH]),
    /// Provide the data to display for all digits.
    Values(&'a [u8; DATA_LENGTH]),
}

/// Mathematical model of a display controller.
pub struct DisplayState {
    /// Whether each digit shows its value.
    pub on: Seq<bool>,
    /// Decimal point bit of each digit (the decimal-point segment bit or zero).
    pub points: Seq<u8>,
    /// Data bytes; byte `i` holds digit `2i` in its low nibble and digit `2i + 1` in its high nibble.
    pub data: Seq<u8>,
    /// Bitstream last rendered, one segment byte per digit, in chain order.
    pub bits: Seq<u8>,
}

impl DisplayState {
    /// Every per-digit sequence has one entry per chain member, the data one per digit pair.
    pub open spec fn sized(self) -> bool {
        &&& self.on.len() == CHAIN_LENGTH
        &&& self.points.len() == CHAIN_LENGTH
        &&& self.data.len() == DATA_LENGTH
        &&& self.bits.len() == CHAIN_LENGTH
    }
}

/// The state of a freshly made controller: everything blank.
pub open spec fn blank() -> DisplayState {
    DisplayState {
        on: Seq::new(CHAIN_LENGTH as nat, |i: int| false),
        points: Seq::new(CHAIN_LENGTH as nat, |i: int| 0u8),
        data: Seq::new(DATA_LENGTH as nat, |i: int| 0u8),
        bits: Seq::new(CHAIN_LENGTH as nat, |i: int| 0u8),
    }
}

/// Decimal point contribution of a digit whose point is (or is not) lit.
pub open spec fn point_bit(lit: bool) -> u8 {
    if lit {
        SEG_DP
    } else {
        0
    }
}

/// The state after an update: only the array that the update names changes.
pub open spec fn apply(s: DisplayState, update: DisplayData) -> DisplayState {
    match update {
        DisplayData::AllOn => DisplayState { on: Seq::new(CHAIN_LENGTH as nat, |i: int| true), ..s },
        DisplayData::AllOff => DisplayState {
            on: Seq::new(CHAIN_LENGTH as nat, |i: int| false),
            ..s
        },
        DisplayData::On(mask) => DisplayState { on: mask@, ..s },
        DisplayData::DecimalPoints(mask) => DisplayState {
            points: mask@.map_values(|lit: bool| point_bit(lit)),
            ..s
        },
        DisplayData::Values(bytes) => DisplayState { data: bytes@, ..s },
    }
}

/// Hex value shown by digit `p`: digit `2i` is the low nibble of byte `i`, digit `2i + 1` its high nibble.
pub open spec fn digit_value(data: Seq<u8>, p: int) -> int {
    if p % 2 == 0 {
        low_index(data[p / 2]) as int
    } else {
        high_index(data[p / 2]) as int
    }
}

/// Segment byte of digit `p` drawing table entry `idx`: the decimal point always,
/// the glyph only when the digit is on.
pub open spec fn digit_bits(s: DisplayState, p: int, idx: int) -> u8 {
    if s.on[p] {
        s.points[p] | char_pattern_spec(idx)
    } else {
        s.points[p]
    }
}

/// The bitstream that the state renders to.
pub open spec fn render(s: DisplayState) -> Seq<u8> {
    Seq::new(CHAIN_LENGTH as nat, |p: int| digit_bits(s, p, digit_value(s.data, p)))
}

/// The state after a render pass: the bitstream holds the rendering, nothing else changes.
pub open spec fn shown(s: DisplayState) -> DisplayState {
    DisplayState { bits: render(s), ..s }
}

/// Display chain controller.
pub struct Display<I: Interp> {
    /// Generator of character lookup indices.
    interp: I,
    /// On state of each display chain member.
    on: [bool; CHAIN_LENGTH],
    /// Decimal point state of each display chain member.
    points: [u8; CHAIN_LENGTH],
    /// Data to be displayed as hexadecimal.
    data: [u8; DATA_LENGTH],
    /// Bitstream to be shifted out to the display members.
    bits: [u8; CHAIN_LENGTH],
}

impl<I: Interp> View for Display<I> {
    type V = DisplayState;

    closed spec fn view(&self) -> DisplayState {
        DisplayState { on: self.on@, points: self.points@, data: self.data@, bits: self.bits@ }
    }
}

impl<I: Interp> Display<I> {
    /// Instantiate a display controller around a lookup index generator, which it configures.
    pub fn new(interp: I) -> (r: Self)
        ensures
            r@ == blank(),
            r@.sized(),
    {
        let mut interp = interp;
        interp.init();
        let r = Display {
            interp,
            on: [false; CHAIN_LENGTH],
            points: [0u8; CHAIN_LENGTH],
            data: [0u8; DATA_LENGTH],
            bits: [0u8; CHAIN_LENGTH],
        };
        assert(r@.on =~= blank().on);
        assert(r@.points =~= blank().points);
        assert(r@.data =~= blank().data);
        assert(r@.bits =~= blank().bits);
        r
    }

    /// Set or modify the display representation.
    ///
    /// This updates the controller's logical state only; the physical display
    /// changes on the next `show`.
    pub fn set(&mut self, data: DisplayData)
        requires
            old(self)@.sized(),
        ensures
            final(self)@ == apply(old(self)@, data),
            final(self)@.sized(),
    {
        match data {
            DisplayData::AllOn => {
                self.on = [true; CHAIN_LENGTH];
                assert(self@.on =~= apply(old(self)@, data).on);
            },
            DisplayData::AllOff => {
                self.on = [false; CHAIN_LENGTH];
                assert(self@.on =~= apply(old(self)@, data).on);
            },
            DisplayData::On(symbols) => {
                self.on = *symbols;
            },
            DisplayData::DecimalPoints(symbols) => {
                let mut i: usize = 0;
                while i < CHAIN_LENGTH
                    invariant
                        0 <= i <= CHAIN_LENGTH,
                        self.on == old(self).on,
                        self.data == old(self).data,
                        self.bits == old(self).bits,
                        forall|j: int| 0 <= j < i ==> self.points@[j] == point_bit(symbols@[j]),
                    decreases CHAIN_LENGTH - i,
                {
                    self.points[i] = if symbols[i] {
                        SEG_DP
                    } else {
                        0x00
                    };
                    i += 1;
                }
                assert(self@.points =~= apply(old(self)@, data).points);
            },
            DisplayData::Values(bytes) => {
                self.data = *bytes;
            },
        }
    }

    /// Update one byte of the bitstream from the state of that chain member.
    ///
    /// `chain_index` is the byte to update, `char_lookup` the table index of the value it shows.
    fn render_bits(&mut self, chain_index: usize, char_lookup: usize)
        requires
            chain_index < CHAIN_LENGTH,
            char_lookup < 16,
        ensures
            final(self).on == old(self).on,
            final(self).points == old(self).points,
            final(self).data == old(self).data,
            final(self).bits@ == old(self).bits@.update(
                chain_index as int,
                digit_bits(old(self)@, chain_index as int, char_lookup as int),
            ),
    {
        self.bits[chain_index] = self.points[chain_index];
        if self.on[chain_index] {
            self.bits[chain_index] = self.bits[chain_index] | char_pattern(char_lookup as u8);
        }
    }

    /// Render the logical state into the bitstream and hand out the bytes to shift
    /// into the chain, first byte first.
    pub fn show(&mut self) -> (r: [u8; CHAIN_LENGTH])
        requires
            old(self)@.sized(),
        ensures
            r@ == render(old(self)@),
            final(self)@ == shown(old(self)@),
            final(self)@.sized(),
    {
        let mut i: usize = 0;
        while i < DATA_LENGTH
            invariant
                0 <= i <= DATA_LENGTH,
                self.on == old(self).on,
                self.points == old(self).points,
                self.data == old(self).data,
                forall|p: int|
                    0 <= p < 2 * i ==> self.bits@[p] == #[trigger] render(old(self)@)[p],
            decreases DATA_LENGTH - i,
        {
            let (hi, lo) = self.interp.run(self.data[i]);
            proof {
                lemma_nibble_indices(self.data[i as int]);
            }
            let chain_index = i * 2;
            self.render_bits(chain_index, lo);
            self.render_bits(chain_index + 1, hi);
            i += 1;
        }
        assert(self.bits@ =~= render(old(self)@));
        self.bits
    }

    /// On state of each chain member.
    pub fn on_states(&self) -> (r: [bool; CHAIN_LENGTH])
        ensures
            r@ == self@.on,
    {
        self.on
    }

    /// Decimal point bit of each chain member.
    pub fn decimal_points(&self) -> (r: [u8; CHAIN_LENGTH])
        ensures
            r@ == self@.points,
    {
        self.points
    }

    /// Data bytes displayed as hexadecimal.
    pub fn values(&self) -> (r: [u8; DATA_LENGTH])
        ensures
            r@ == self@.data,
    {
        self.data
    }

    /// Bitstream of the last render pass.
    pub fn bits(&self) -> (r: [u8; CHAIN_LENGTH])
        ensures
            r@ == self@.bits,
    {
        self.bits
    }
}

/// Rendering twice with no update in between gives the same bitstream: a render
/// pass reads only the logical state, and leaves that state as it found it.
pub proof fn lemma_show_idempotent(s: DisplayState)
    requires
        s.sized(),
    ensures
        render(shown(s)) == render(s),
        shown(shown(s)) == shown(s),
{
    assert(render(shown(s)) =~= render(s));
}

/// With every decimal point set and every digit off, in either order of the two
/// updates, each digit transmits the decimal-point bit and no other segment.
pub proof fn lemma_points_without_digits(
    s: DisplayState,
    all_points: &[bool; CHAIN_LENGTH],
    no_digits: &[bool; CHAIN_LENGTH],
)
    requires
        s.sized(),
        forall|i: int| 0 <= i < CHAIN_LENGTH ==> all_points@[i],
        forall|i: int| 0 <= i < CHAIN_LENGTH ==> !no_digits@[i],
    ensures
        render(apply(apply(s, DisplayData::DecimalPoints(all_points)), DisplayData::On(no_digits)))
            == Seq::new(CHAIN_LENGTH as nat, |p: int| SEG_DP),
        render(apply(apply(s, DisplayData::On(no_digits)), DisplayData::DecimalPoints(all_points)))
            == Seq::new(CHAIN_LENGTH as nat, |p: int| SEG_DP),
{
    assert(render(apply(apply(s, DisplayData::DecimalPoints(all_points)), DisplayData::On(no_digits)))
        =~= Seq::new(CHAIN_LENGTH as nat, |p: int| SEG_DP));
    assert(render(apply(apply(s, DisplayData::On(no_digits)), DisplayData::DecimalPoints(all_points)))
        =~= Seq::new(CHAIN_LENGTH as nat, |p: int| SEG_DP));
}

/// `On` replaces the on states: after two `On` updates only the second mask counts.
pub proof fn lemma_on_replaces(
    s: DisplayState,
    first: &[bool; CHAIN_LENGTH],
    second: &[bool; CHAIN_LENGTH],
)
    ensures
        apply(apply(s, DisplayData::On(first)), DisplayData::On(second)) == apply(
            s,
            DisplayData::On(second),
        ),
        apply(apply(s, DisplayData::On(first)), DisplayData::On(second)).on == second@,
{
}

} // verus!
