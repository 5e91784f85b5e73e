use vstd::prelude::*;

verus! {

/// Number of sub-pixel units per pixel. Virtual coordinates are kept in these
/// units so that slow per-tick movements (fractions of a pixel per frame)
/// accumulate instead of being rounded away.
pub const SUB_PIXELS: u64 = 1000;

/// A position on the play-field, tracked at sub-pixel resolution.
///
/// The two virtual accumulators are the only stored state; the integer pixel
/// accessors always derive from them by flooring, so the two views can never
/// drift apart.
#[derive(Debug, Copy, Clone, PartialEq, Eq, Structural)]
pub struct Coordinates {
    /// Horizontal position in sub-pixel units.
    pub virtual_x: u64,
    /// Vertical position in sub-pixel units.
    pub virtual_y: u64,
}

/// The pixel column shown for a virtual horizontal value: the floor of the
/// virtual value, clamped into `u32`.
pub open spec fn spec_pixel(v: u64) -> u32 {
    if v / SUB_PIXELS > u32::MAX { u32::MAX } else { (v / SUB_PIXELS) as u32 }
}

/// `v` saturated to `u64::MAX` when `a + b` overflows.
pub open spec fn spec_sat_add(a: u64, b: u64) -> u64 {
    if a + b > u64::MAX { u64::MAX } else { (a + b) as u64 }
}

/// `a - b`, stopping at zero instead of wrapping.
pub open spec fn spec_sat_sub(a: u64, b: u64) -> u64 {
    if a >= b { (a - b) as u64 } else { 0 }
}

/// `speed * delta`, saturated to `u64::MAX`.
pub open spec fn spec_sat_mul(a: u64, b: u64) -> u64 {
    if a * b > u64::MAX { u64::MAX } else { (a * b) as u64 }
}

/// A larger virtual value never shows as a smaller pixel.
pub proof fn lemma_pixel_monotonic(a: u64, b: u64)
    requires
        a <= b,
    ensures
        spec_pixel(a) <= spec_pixel(b),
{
    vstd::arithmetic::div_mod::lemma_div_is_ordered(a as int, b as int, SUB_PIXELS as int);
}

impl Coordinates {
    /// Place a position at a whole-pixel point.
    pub fn new(x: u32, y: u32) -> (r: Self)
        ensures
            r.virtual_x == x as u64 * SUB_PIXELS,
            r.virtual_y == y as u64 * SUB_PIXELS,
    {
        Coordinates { virtual_x: x as u64 * SUB_PIXELS, virtual_y: y as u64 * SUB_PIXELS }
    }

    /// The pixel column of this position.
    pub fn x(&self) -> (r: u32)
        ensures
            r == spec_pixel(self.virtual_x),
    {
        let q = self.virtual_x / SUB_PIXELS;
        if q > u32::MAX as u64 { u32::MAX } else { q as u32 }
    }

    /// The pixel row of this position.
    pub fn y(&self) -> (r: u32)
        ensures
            r == spec_pixel(self.virtual_y),
    {
        let q = self.virtual_y / SUB_PIXELS;
        if q > u32::MAX as u64 { u32::MAX } else { q as u32 }
    }

    /// The pixel column as a `usize` buffer index.
    pub fn x_usize(&self) -> (r: usize)
        ensures
            r == spec_pixel(self.virtual_x) as usize,
    {
        self.x() as usize
    }

    /// The pixel row as a `usize` buffer index.
    pub fn y_usize(&self) -> (r: usize)
        ensures
            r == spec_pixel(self.virtual_y) as usize,
    {
        self.y() as usize
    }

    /// Move right by `dx` sub-pixel units, saturating at the numeric limit.
    pub fn add_virtual_x(&mut self, dx: u64)
        ensures
            final(self).virtual_x == spec_sat_add(old(self).virtual_x, dx),
            final(self).virtual_y == old(self).virtual_y,
    {
        self.virtual_x = self.virtual_x.saturating_add(dx);
    }

    /// Move left by `dx` sub-pixel units, stopping at zero.
    pub fn sub_virtual_x(&mut self, dx: u64)
        ensures
            final(self).virtual_x == spec_sat_sub(old(self).virtual_x, dx),
            final(self).virtual_y == old(self).virtual_y,
    {
        self.virtual_x = self.virtual_x.saturating_sub(dx);
    }

    /// Set the virtual horizontal value outright.
    pub fn set_virtual_x(&mut self, vx: u64)
        ensures
            final(self).virtual_x == vx,
            final(self).virtual_y == old(self).virtual_y,
    {
        self.virtual_x = vx;
    }

    /// Move up by `speed * delta_ms` sub-pixel units, stopping at zero.
    pub fn sub_virtual_y(&mut self, speed: u64, delta_ms: u64)
        ensures
            final(self).virtual_y == spec_sat_sub(
                old(self).virtual_y,
                spec_sat_mul(speed, delta_ms),
            ),
            final(self).virtual_x == old(self).virtual_x,
    {
        let d = match speed.checked_mul(delta_ms) {
            Some(d) => d,
            None => u64::MAX,
        };
        self.virtual_y = self.virtual_y.saturating_sub(d);
    }

    /// Move down by `speed * delta_ms` sub-pixel units, saturating at the
    /// numeric limit.
    pub fn add_virtual_y(&mut self, speed: u64, delta_ms: u64)
        ensures
            final(self).virtual_y == spec_sat_add(
                old(self).virtual_y,
                spec_sat_mul(speed, delta_ms),
            ),
            final(self).virtual_x == old(self).virtual_x,
    {
        let d = match speed.checked_mul(delta_ms) {
            Some(d) => d,
            None => u64::MAX,
        };
        self.virtual_y = self.virtual_y.saturating_add(d);
    }
}

} // verus!
