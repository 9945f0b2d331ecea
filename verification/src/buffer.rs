//! Basic buffer types and the capability interface that every buffer-like
//! variant exposes.

use vstd::prelude::*;

verus! {

/// An opaque identifier for a kernel-owned buffer allocation.
///
/// A handle is meaningful only to the kernel subsystem that issued it: this
/// crate never interprets or destroys it, and compares handles only for
/// equality.
#[derive(Debug, Copy, Clone, Hash, PartialEq, Eq, Structural)]
pub struct Handle(pub u32);

/// An enumerated pixel format: bits per pixel and channel layout.
#[derive(Debug, Copy, Clone, Hash, PartialEq, Eq, Structural)]
pub enum PixelFormat {
    /// 16 bits per pixel, red-green-blue with a 5-6-5 split.
    RGB565,
    /// 24 bits per pixel, one byte per channel.
    RGB888,
    /// 32 bits per pixel, red-green-blue with the high byte unused.
    XRGB8888,
    /// 32 bits per pixel, red-green-blue with an alpha channel.
    ARGB8888,
}

impl PixelFormat {
    /// How many bits one pixel of this format occupies.
    pub open spec fn spec_bits_per_pixel(self) -> u32 {
        match self {
            PixelFormat::RGB565 => 16,
            PixelFormat::RGB888 => 24,
            PixelFormat::XRGB8888 => 32,
            PixelFormat::ARGB8888 => 32,
        }
    }

    /// How many bits one pixel of this format occupies.
    pub fn bits_per_pixel(self) -> (r: u32)
        ensures
            r == self.spec_bits_per_pixel(),
    {
        match self {
            PixelFormat::RGB565 => 16,
            PixelFormat::RGB888 => 24,
            PixelFormat::XRGB8888 => 32,
            PixelFormat::ARGB8888 => 32,
        }
    }
}

/// The read-only metadata contract that every buffer variant exposes.
///
/// Code that works over buffers polymorphically must depend on this
/// interface alone, never on a concrete buffer type. Each accessor is pinned
/// to the corresponding specification function, so a caller that only knows
/// `B: Buffer` still learns exactly what it was handed.
pub trait Buffer {
    /// The buffer's dimensions, in pixels, as the accessor reports them.
    spec fn spec_size(self) -> (u32, u32);

    /// The buffer's pixel format, as the accessor reports it.
    spec fn spec_format(self) -> PixelFormat;

    /// The buffer's pitch in bytes per scanline, as the accessor reports it.
    spec fn spec_pitch(self) -> u32;

    /// The buffer's kernel handle, as the accessor reports it.
    spec fn spec_handle(self) -> Handle;

    /// The width and height of the buffer, in pixels.
    fn size(&self) -> (r: (u32, u32))
        ensures
            r == self.spec_size(),
    ;

    /// The pixel format of the buffer.
    fn format(&self) -> (r: PixelFormat)
        ensures
            r == self.spec_format(),
    ;

    /// The number of bytes from one scanline to the next.
    fn pitch(&self) -> (r: u32)
        ensures
            r == self.spec_pitch(),
    ;

    /// The handle of the kernel allocation backing the buffer.
    fn handle(&self) -> (r: Handle)
        ensures
            r == self.spec_handle(),
    ;
}

} // verus!
