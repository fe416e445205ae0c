//! Seven-segment glyph encoding.
//!
//! ```text
//!     A
//!    ---
//! F | G | B
//!    ---
//! E |   | C
//!    --- o
//!     D  DP
//! ```
use vstd::prelude::*;

verus! {

/// Bit corresponding to display segment "A."
pub const SEG_A: u8 = 0x01;
/// Bit corresponding to display segment "B."
pub const SEG_B: u8 = 0x02;
/// Bit corresponding to display segment "C."
pub const SEG_C: u8 = 0x04;
/// Bit corresponding to display segment "D."
pub const SEG_D: u8 = 0x08;
/// Bit corresponding to display segment "E."
pub const SEG_E: u8 = 0x10;
/// Bit corresponding to display segment "F."
pub const SEG_F: u8 = 0x20;
/// Bit corresponding to display segment "G."
pub const SEG_G: u8 = 0x40;
/// Bit corresponding to the decimal point.
pub const SEG_DP: u8 = 0x80;

/// One of the eight elements of a display digit.
pub enum Segment {
    A,
    B,
    C,
    D,
    E,
    F,
    G,
    Dp,
}

/// The bit that drives a segment.
pub open spec fn segment_bit(s: Segment) -> u8 {
    match s {
        Segment::A => SEG_A,
        Segment::B => SEG_B,
        Segment::C => SEG_C,
        Segment::D => SEG_D,
        Segment::E => SEG_E,
        Segment::F => SEG_F,
        Segment::G => SEG_G,
        Segment::Dp => SEG_DP,
    }
}

/// The pattern that lights exactly the listed (distinct) segments.
pub open spec fn pattern_of(segs: Seq<Segment>) -> int
    decreases segs.len(),
{
    if segs.len() == 0 {
        0
    } else {
        segment_bit(segs[0]) + pattern_of(segs.drop_first())
    }
}

/// The segments lit by the conventional glyph of hex digit `d`
/// (lower case "b" and "d", so that they differ from "8" and "0").
pub open spec fn glyph(d: int) -> Seq<Segment> {
    if d == 0x0 {
        seq![Segment::A, Segment::B, Segment::C, Segment::D, Segment::E, Segment::F]
    } else if d == 0x1 {
        seq![Segment::B, Segment::C]
    } else if d == 0x2 {
        seq![Segment::A, Segment::B, Segment::D, Segment::E, Segment::G]
    } else if d == 0x3 {
        seq![Segment::A, Segment::B, Segment::C, Segment::D, Segment::G]
    } else if d == 0x4 {
        seq![Segment::B, Segment::C, Segment::F, Segment::G]
    } else if d == 0x5 {
        seq![Segment::A, Segment::C, Segment::D, Segment::F, Segment::G]
    } else if d == 0x6 {
        seq![Segment::A, Segment::C, Segment::D, Segment::E, Segment::F, Segment::G]
    } else if d == 0x7 {
        seq![Segment::A, Segment::B, Segment::C]
    } else if d == 0x8 {
        seq![Segment::A, Segment::B, Segment::C, Segment::D, Segment::E, Segment::F, Segment::G]
    } else if d == 0x9 {
        seq![Segment::A, Segment::B, Segment::C, Segment::D, Segment::F, Segment::G]
    } else if d == 0xA {
        seq![Segment::A, Segment::B, Segment::C, Segment::E, Segment::F, Segment::G]
    } else if d == 0xB {
        seq![Segment::C, Segment::D, Segment::E, Segment::F, Segment::G]
    } else if d == 0xC {
        seq![Segment::A, Segment::D, Segment::E, Segment::F]
    } else if d == 0xD {
        seq![Segment::B, Segment::C, Segment::D, Segment::E, Segment::G]
    } else if d == 0xE {
        seq![Segment::A, Segment::D, Segment::E, Segment::F, Segment::G]
    } else {
        seq![Segment::A, Segment::E, Segment::F, Segment::G]
    }
}

/// Segment pattern of hex digit `d`: its glyph's segments, decimal point off.
pub open spec fn char_pattern_spec(d: int) -> u8 {
    pattern_of(glyph(d)) as u8
}

/// Each glyph's pattern as a byte.
spec fn glyph_byte(d: int) -> u8 {
    if d == 0x0 {
        0x3f
    } else if d == 0x1 {
        0x06
    } else if d == 0x2 {
        0x5b
    } else if d == 0x3 {
        0x4f
    } else if d == 0x4 {
        0x66
    } else if d == 0x5 {
        0x6d
    } else if d == 0x6 {
        0x7d
    } else if d == 0x7 {
        0x07
    } else if d == 0x8 {
        0x7f
    } else if d == 0x9 {
        0x6f
    } else if d == 0xA {
        0x77
    } else if d == 0xB {
        0x7c
    } else if d == 0xC {
        0x39
    } else if d == 0xD {
        0x5e
    } else if d == 0xE {
        0x79
    } else {
        0x71
    }
}

proof fn lemma_glyph_byte(d: int)
    requires
        0 <= d < 16,
    ensures
        pattern_of(glyph(d)) == glyph_byte(d),
{
    reveal_with_fuel(pattern_of, 8);
}

/// The table entries, written with segment names, evaluate to these bytes.
proof fn lemma_table_bytes()
    ensures
        !(SEG_G | SEG_DP) == 0x3fu8,
        SEG_B | SEG_C == 0x06u8,
        !(SEG_C | SEG_F | SEG_DP) == 0x5bu8,
        !(SEG_E | SEG_F | SEG_DP) == 0x4fu8,
        !(SEG_A | SEG_D | SEG_E | SEG_DP) == 0x66u8,
        !(SEG_B | SEG_E | SEG_DP) == 0x6du8,
        !(SEG_B | SEG_DP) == 0x7du8,
        SEG_A | SEG_B | SEG_C == 0x07u8,
        !SEG_DP == 0x7fu8,
        !(SEG_E | SEG_DP) == 0x6fu8,
        !(SEG_D | SEG_DP) == 0x77u8,
        !(SEG_A | SEG_B | SEG_DP) == 0x7cu8,
        SEG_A | SEG_F | SEG_E | SEG_D == 0x39u8,
        !(SEG_A | SEG_F | SEG_DP) == 0x5eu8,
        !(SEG_B | SEG_C | SEG_DP) == 0x79u8,
        !(SEG_B | SEG_C | SEG_D | SEG_DP) == 0x71u8,
{
    assert(!(0x40u8 | 0x80u8) == 0x3fu8) by (bit_vector);
    assert(0x02u8 | 0x04u8 == 0x06u8) by (bit_vector);
    assert(!(0x04u8 | 0x20u8 | 0x80u8) == 0x5bu8) by (bit_vector);
    assert(!(0x10u8 | 0x20u8 | 0x80u8) == 0x4fu8) by (bit_vector);
    assert(!(0x01u8 | 0x08u8 | 0x10u8 | 0x80u8) == 0x66u8) by (bit_vector);
    assert(!(0x02u8 | 0x10u8 | 0x80u8) == 0x6du8) by (bit_vector);
    assert(!(0x02u8 | 0x80u8) == 0x7du8) by (bit_vector);
    assert(0x01u8 | 0x02u8 | 0x04u8 == 0x07u8) by (bit_vector);
    assert(!0x80u8 == 0x7fu8) by (bit_vector);
    assert(!(0x10u8 | 0x80u8) == 0x6fu8) by (bit_vector);
    assert(!(0x08u8 | 0x80u8) == 0x77u8) by (bit_vector);
    assert(!(0x01u8 | 0x02u8 | 0x80u8) == 0x7cu8) by (bit_vector);
    assert(0x01u8 | 0x20u8 | 0x10u8 | 0x08u8 == 0x39u8) by (bit_vector);
    assert(!(0x01u8 | 0x20u8 | 0x80u8) == 0x5eu8) by (bit_vector);
    assert(!(0x02u8 | 0x04u8 | 0x80u8) == 0x79u8) by (bit_vector);
    assert(!(0x02u8 | 0x04u8 | 0x08u8 | 0x80u8) == 0x71u8) by (bit_vector);
}

/// Segment pattern of a hex digit, as the display chain expects it.
pub fn char_pattern(digit: u8) -> (r: u8)
    requires
        digit < 16,
    ensures
        r == char_pattern_spec(digit as int),
        r & SEG_DP == 0,
{
    proof {
        lemma_table_bytes();
        lemma_glyph_byte(digit as int);
    }
    let r: u8 = match digit {
        0x0 => !(SEG_G | SEG_DP),
        0x1 => SEG_B | SEG_C,
        0x2 => !(SEG_C | SEG_F | SEG_DP),
        0x3 => !(SEG_E | SEG_F | SEG_DP),
        0x4 => !(SEG_A | SEG_D | SEG_E | SEG_DP),
        0x5 => !(SEG_B | SEG_E | SEG_DP),
        0x6 => !(SEG_B | SEG_DP),
        0x7 => SEG_A | SEG_B | SEG_C,
        0x8 => !SEG_DP,
        0x9 => !(SEG_E | SEG_DP),
        0xA => !(SEG_D | SEG_DP),
        0xB => !(SEG_A | SEG_B | SEG_DP),
        0xC => SEG_A | SEG_F | SEG_E | SEG_D,
        0xD => !(SEG_A | SEG_F | SEG_DP),
        0xE => !(SEG_B | SEG_C | SEG_DP),
        _ => !(SEG_B | SEG_C | SEG_D | SEG_DP),
    };
    proof {
        assert(r & 0x80u8 == 0) by (bit_vector)
            requires
                r < 0x80u8,
        ;
    }
    r
}

/// Whether a segment pattern lights segment `s`.
pub open spec fn lights(pattern: u8, s: Segment) -> bool {
    pattern & segment_bit(s) != 0
}

/// Whether `s` is one of the listed segments.
pub open spec fn listed(segs: Seq<Segment>, s: Segment) -> bool
    decreases segs.len(),
{
    segs.len() > 0 && (segs[0] == s || listed(segs.drop_first(), s))
}

/// Testing one bit of a byte is reading one binary digit of it.
proof fn lemma_bit_tests(v: u8)
    ensures
        v & 0x01 != 0 <==> v % 2 == 1,
        v & 0x02 != 0 <==> (v / 2) % 2 == 1,
        v & 0x04 != 0 <==> (v / 4) % 2 == 1,
        v & 0x08 != 0 <==> (v / 8) % 2 == 1,
        v & 0x10 != 0 <==> (v / 16) % 2 == 1,
        v & 0x20 != 0 <==> (v / 32) % 2 == 1,
        v & 0x40 != 0 <==> (v / 64) % 2 == 1,
        v & 0x80 != 0 <==> (v / 128) % 2 == 1,
{
    assert(v & 0x01 != 0 <==> v % 2 == 1) by (bit_vector);
    assert(v & 0x02 != 0 <==> (v / 2) % 2 == 1) by (bit_vector);
    assert(v & 0x04 != 0 <==> (v / 4) % 2 == 1) by (bit_vector);
    assert(v & 0x08 != 0 <==> (v / 8) % 2 == 1) by (bit_vector);
    assert(v & 0x10 != 0 <==> (v / 16) % 2 == 1) by (bit_vector);
    assert(v & 0x20 != 0 <==> (v / 32) % 2 == 1) by (bit_vector);
    assert(v & 0x40 != 0 <==> (v / 64) % 2 == 1) by (bit_vector);
    assert(v & 0x80 != 0 <==> (v / 128) % 2 == 1) by (bit_vector);
}

/// The pattern of each hex digit lights exactly the segments of its glyph: the
/// decimal point never, and each of A to G just when the glyph lists it.
pub proof fn lemma_glyph_segments(d: u8, s: Segment)
    requires
        d < 16,
    ensures
        lights(char_pattern_spec(d as int), s) <==> listed(glyph(d as int), s),
{
    let p = char_pattern_spec(d as int);
    lemma_bit_tests(p);
    reveal_with_fuel(listed, 8);
    lemma_glyph_byte(d as int);
    match s {
        Segment::A => {},
        Segment::B => {},
        Segment::C => {},
        Segment::D => {},
        Segment::E => {},
        Segment::F => {},
        Segment::G => {},
        Segment::Dp => {},
    }
}

} // verus!
