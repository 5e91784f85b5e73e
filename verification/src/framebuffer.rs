use vstd::prelude::*;

use crate::color::Color;

verus! {

/// The board's frame buffer, as the core sees it: a pixel buffer holding
/// two stacked screens for double buffering, with the geometry the
/// videocore reported. The memory-mapped transport behind it belongs to the
/// board bring-up, outside this crate's verified core.
#[derive(Debug)]
pub struct FrameBuffer {
    /// The pixel buffer: `fb_virtual_width` pixels per row.
    pub framebuff: Vec<u32>,
    /// Physical width in pixels.
    pub width: u32,
    /// Physical height in pixels.
    pub height: u32,
    /// Bytes per row, as reported.
    pub pitch: u32,
    /// Whether the pixel order is RGB.
    pub is_rgb: bool,
    /// Whether the pixel order is BGR.
    pub is_brg: bool,
    /// Width of the virtual (double) buffer in pixels.
    pub fb_virtual_width: u32,
    /// Bits per pixel.
    pub depth_bits: u32,
    /// Which of the two stacked screens is being drawn to.
    pub current_index: u8,
}

impl FrameBuffer {
    /// Pixels in one screen.
    pub fn single_screen_len(&self) -> (r: usize)
        requires
            self.height * self.width <= u32::MAX,
        ensures
            r == self.height * self.width,
    {
        let h = self.height;
        let w = self.width;
        (h * w) as usize
    }

    /// First row of the screen currently drawn to.
    pub fn current_height_offset(&self) -> (r: usize)
        requires
            self.height * self.current_index <= usize::MAX,
        ensures
            r == self.height * self.current_index,
    {
        let h = self.height as usize;
        let i = self.current_index as usize;
        h * i
    }

    /// The other screen of the double buffer.
    pub fn inverse(index: u8) -> (r: u8)
        ensures
            r == (if index == 1 {
                0u8
            } else {
                1u8
            }),
    {
        if index == 1 {
            0
        } else {
            1
        }
    }

    /// Bits of pixel data in one screen.
    pub fn max_screen_size(&self) -> (r: u32)
        requires
            self.depth_bits * self.width <= u32::MAX,
            self.depth_bits * self.width * self.height <= u32::MAX,
        ensures
            r == self.depth_bits * self.width * self.height,
    {
        let d = self.depth_bits;
        let w = self.width;
        let h = self.height;
        d * w * h
    }

    /// Paint one pixel of the buffer.
    pub fn use_pixel(&mut self, x: usize, y: usize, color: Color)
        requires
            old(self).width * y + x < old(self).framebuff@.len(),
        ensures
            final(self).framebuff@ == old(self).framebuff@.update(
                (old(self).width * y + x) as int,
                color.rgb,
            ),
            final(self).width == old(self).width,
            final(self).height == old(self).height,
            final(self).current_index == old(self).current_index,
    {
        let n = self.framebuff.len();
        let w = self.width as usize;
        let index = w * y + x;
        let value = color.rgb();
        self.framebuff[index] = value;
    }

    /// Blank the whole buffer.
    pub fn clear_screen(&mut self)
        ensures
            final(self).framebuff@.len() == old(self).framebuff@.len(),
            forall|i: int|
                0 <= i < final(self).framebuff@.len() ==> final(self).framebuff@[i] == 0,
            final(self).width == old(self).width,
            final(self).height == old(self).height,
            final(self).current_index == old(self).current_index,
    {
        let n = self.framebuff.len();
        let mut i: usize = 0;
        while i < n
            invariant
                i <= n,
                self.framebuff@.len() == n,
                self.width == old(self).width,
                self.height == old(self).height,
                self.current_index == old(self).current_index,
                forall|j: int| 0 <= j < i ==> self.framebuff@[j] == 0,
            decreases n - i,
        {
            self.framebuff[i] = 0;
            i = i + 1;
        }
    }
}

} // verus!
