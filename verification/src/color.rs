use vstd::prelude::*;

verus! {

/// One packed pixel: alpha-like high bits and 8-bit red, green, blue
/// channels.
#[derive(Debug, Copy, Clone, PartialEq, Eq, Structural)]
pub struct Color {
    /// The packed channel value.
    pub rgb: u32,
}

/// The packed pixel value for the given channels.
pub open spec fn spec_rgb_u32(red: u8, green: u8, blue: u8) -> u32 {
    (255u32 << 28) | ((red as u32) << 16) | ((green as u32) << 8) | (blue as u32)
}

impl Color {
    /// Pack three channels into a pixel value.
    pub fn rgb_u32(red: u8, green: u8, blue: u8) -> (r: u32)
        ensures
            r == spec_rgb_u32(red, green, blue),
    {
        (255u32 << 28 | (red as u32) << 16) | ((green as u32) << 8) | (blue as u32)
    }

    /// A colour from its three channels.
    pub fn new(red: u8, green: u8, blue: u8) -> (r: Self)
        ensures
            r.rgb == spec_rgb_u32(red, green, blue),
    {
        Color { rgb: Self::rgb_u32(red, green, blue) }
    }

    /// The packed pixel value.
    pub fn rgb(&self) -> (r: u32)
        ensures
            r == self.rgb,
    {
        self.rgb
    }
}

} // verus!
