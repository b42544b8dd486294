//! Pixels of the image volume: a byte image per pixel, plus a default.

use vstd::prelude::*;

verus! {

/// A pixel that can serialize itself into a raw byte buffer.
pub trait Pixel: Sized + Clone {
    /// The bytes this pixel contributes to a raw binary dump.
    spec fn spec_bytes(&self) -> Seq<u8>;

    /// The value a freshly created image is filled with.
    spec fn spec_default() -> Self;

    /// Produce the default pixel.
    fn default_pixel() -> (p: Self)
        ensures
            p == Self::spec_default(),
    ;

    /// Append this pixel's bytes to a buffer.
    fn write_to_buffer(&self, buffer: &mut Vec<u8>)
        ensures
            final(buffer)@ == old(buffer)@ + self.spec_bytes(),
    ;
}

/// A four-channel byte pixel, serialized as r, g, b, a.
#[derive(Clone, Copy, Debug, PartialEq, Eq, Structural)]
pub struct PixelRgba8 {
    pub r: u8,
    pub g: u8,
    pub b: u8,
    pub a: u8,
}

impl Default for PixelRgba8 {
    fn default() -> (p: Self)
        ensures
            p == (PixelRgba8 { r: 0u8, g: 0u8, b: 0u8, a: 0u8 }),
    {
        PixelRgba8 { r: 0, g: 0, b: 0, a: 0 }
    }
}

impl Pixel for PixelRgba8 {
    open spec fn spec_bytes(&self) -> Seq<u8> {
        seq![self.r, self.g, self.b, self.a]
    }

    open spec fn spec_default() -> Self {
        PixelRgba8 { r: 0u8, g: 0u8, b: 0u8, a: 0u8 }
    }

    fn default_pixel() -> (p: Self) {
        PixelRgba8 { r: 0, g: 0, b: 0, a: 0 }
    }

    fn write_to_buffer(&self, buffer: &mut Vec<u8>) {
        buffer.push(self.r);
        buffer.push(self.g);
        buffer.push(self.b);
        buffer.push(self.a);
        assert(buffer@ =~= old(buffer)@ + self.spec_bytes());
    }
}

} // verus!
