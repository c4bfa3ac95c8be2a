use vstd::prelude::*;

verus! {

/// A colour of four channels, each the bits of a single-precision number.
#[derive(Clone, Copy, PartialEq, Eq, Structural, Debug)]
pub struct GlColor {
    pub r: u32,
    pub g: u32,
    pub b: u32,
    pub a: u32,
}

impl GlColor {
    pub fn new(r: u32, g: u32, b: u32, a: u32) -> (color: GlColor)
        ensures
            color == (GlColor { r, g, b, a }),
    {
        GlColor { r, g, b, a }
    }

    /// The channels in the order red, green, blue, alpha.
    pub open spec fn channels(self) -> Seq<u32> {
        seq![self.r, self.g, self.b, self.a]
    }
}

} // verus!
