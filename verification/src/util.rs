use vstd::prelude::*;

verus! {

/// A color with red, green, blue and alpha channels, each eight bits wide.
#[derive(Debug, Copy, Clone, PartialEq, Eq, Structural)]
pub struct RGBA(pub u8, pub u8, pub u8, pub u8);

/// The 24-bit value that packs the first three channels of a color:
/// the red channel in the highest byte, then green, then blue.
pub open spec fn spec_packed_rgb(c: RGBA) -> u32 {
    ((c.0 as int) * 0x10000 + (c.1 as int) * 0x100 + (c.2 as int)) as u32
}

impl core::convert::From<RGBA> for (u32, u8) {
    /// Packs a color into the pair that the layered-window color call takes:
    /// the three color channels in one 24-bit value, and the alpha channel beside it.
    fn from(c: RGBA) -> (res: (u32, u8))
        ensures
            res.0 == spec_packed_rgb(c),
            res.1 == c.3,
    {
        let mut o: u32 = 0;
        o |= c.0 as u32;
        o <<= 8;
        o |= c.1 as u32;
        o <<= 8;
        o |= c.2 as u32;
        proof {
            let (r, g, b) = (c.0, c.1, c.2);
            assert((((((0u32 | (r as u32)) << 8) | (g as u32)) << 8) | (b as u32)) as int == (
            r as int) * 0x10000 + (g as int) * 0x100 + (b as int)) by (bit_vector);
        }
        (o, c.3)
    }
}

impl vstd::std_specs::convert::FromSpecImpl<RGBA> for (u32, u8) {
    open spec fn obeys_from_spec() -> bool {
        true
    }

    open spec fn from_spec(c: RGBA) -> (u32, u8) {
        (spec_packed_rgb(c), c.3)
    }
}

} // verus!
