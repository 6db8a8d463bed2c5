//! The handoff structures the bootloader passes to the kernel entry
//! point, as plain values: the framebuffer description and the raw
//! memory-map block (whose buffer is carried as a physical address).

use vstd::prelude::*;

verus! {

/// The pixel layouts a UEFI graphics output may hand over.
#[derive(Clone, Copy, Debug, PartialEq, Eq, Structural)]
pub enum PixelFormat {
    PixelRGBResv8BitPerColor,
    PixelBGRResv8BitPerColor,
}

/// The framebuffer the bootloader hands to the kernel.
#[derive(Clone, Copy, Debug, PartialEq, Eq, Structural)]
pub struct FrameBufferConfig {
    /// Physical address of the pixel buffer.
    pub buf: u64,
    pub pixels_per_scanline: u32,
    pub horizontal_resolution: u32,
    pub vertical_resolution: u32,
    pub pixel_format: PixelFormat,
}

impl FrameBufferConfig {
    /// Bytes the visible framebuffer occupies: four bytes per pixel
    /// over every scanline.
    pub fn buffer_bytes(&self) -> (r: u64)
        requires
            self.pixels_per_scanline * self.vertical_resolution * 4 <= u64::MAX,
        ensures
            r == self.pixels_per_scanline * self.vertical_resolution * 4,
    {
        proof {
            let p = (self.pixels_per_scanline as int) * (self.vertical_resolution as int);
            assert(p >= 0 && p <= p * 4) by (nonlinear_arith)
                requires
                    self.pixels_per_scanline >= 0,
                    self.vertical_resolution >= 0,
                    p == (self.pixels_per_scanline as int) * (self.vertical_resolution as int),
            ;
        }
        (self.pixels_per_scanline as u64) * (self.vertical_resolution as u64) * 4
    }
}

} // verus!
