//! Noise-texture grids: a W×H×D volume of fixed-channel byte pixels, filled
//! voxel by voxel through a caller-supplied kernel and serialized in linear
//! order.
//!
//! The fill engine visits every linear slot exactly once and stores in slot
//! `i` a value produced by the kernel for the coordinate decoded from `i`,
//! so a fill is a pure function of the kernel and the grid shape.

use vstd::prelude::*;

use crate::index::{index_x, index_y, index_z, lemma_index_decode, linear_index};
use crate::vecs::UVec3;

verus! {

/// The shape of a noise texture.
#[derive(Clone, Copy, Debug, PartialEq, Eq, Structural)]
pub struct NoisetexInfo {
    pub width: u32,
    pub height: u32,
    pub depth: u32,
}

impl NoisetexInfo {
    /// How many voxels the texture holds.
    pub open spec fn voxel_count(&self) -> int {
        self.width * self.height * self.depth
    }

    /// Shapes small enough that voxel counts and slice sizes stay exact.
    pub open spec fn bounded(&self) -> bool {
        self.width * self.height <= u32::MAX && self.voxel_count() <= u32::MAX
    }

    /// The coordinate stored in linear slot `i` of a texture of this shape.
    pub open spec fn coord_of(&self, i: int) -> UVec3 {
        UVec3 {
            x: index_x(i, self.width as int, self.height as int) as u32,
            y: index_y(i, self.width as int, self.height as int) as u32,
            z: index_z(i, self.width as int, self.height as int) as u32,
        }
    }

    /// The shape as a vector.
    pub fn size(&self) -> (r: UVec3)
        ensures
            r == (UVec3 { x: self.width, y: self.height, z: self.depth }),
    {
        UVec3 { x: self.width, y: self.height, z: self.depth }
    }
}

/// A fixed-channel byte pixel: it has a default value and a byte image of
/// itself in serialization order.
pub trait PixelType: Sized + Clone {
    /// The bytes this pixel contributes to a raw binary dump.
    spec fn spec_bytes(&self) -> Seq<u8>;

    /// How many bytes every pixel of this type serializes to.
    spec fn spec_byte_count() -> int;

    /// Every pixel value serializes to the same number of bytes.
    proof fn lemma_byte_count(&self)
        ensures
            self.spec_bytes().len() == Self::spec_byte_count(),
    ;

    /// The value a freshly created grid is filled with.
    spec fn spec_default() -> Self;

    /// Produce the default pixel.
    fn default_pixel() -> (p: Self)
        ensures
            p == Self::spec_default(),
    ;

    /// Append this pixel's bytes to a buffer.
    fn write_to_buffer(&self, buffer: &mut Vec<u8>)
        ensures
            final(buffer)@ == old(buffer)@ + self.spec_bytes(),
    ;
}

/// A four-channel byte pixel; alpha defaults to opaque.
#[derive(Clone, Copy, Debug, PartialEq, Eq, Structural)]
pub struct Rgba8 {
    pub r: u8,
    pub g: u8,
    pub b: u8,
    pub a: u8,
}

impl Default for Rgba8 {
    fn default() -> (p: Self)
        ensures
            p == (Rgba8 { r: 0u8, g: 0u8, b: 0u8, a: 255u8 }),
    {
        Rgba8 { r: 0, g: 0, b: 0, a: 255 }
    }
}

impl PixelType for Rgba8 {
    open spec fn spec_bytes(&self) -> Seq<u8> {
        seq![self.r, self.g, self.b, self.a]
    }

    open spec fn spec_byte_count() -> int {
        4
    }

    proof fn lemma_byte_count(&self) {
    }

    open spec fn spec_default() -> Self {
        Rgba8 { r: 0u8, g: 0u8, b: 0u8, a: 255u8 }
    }

    fn default_pixel() -> (p: Self) {
        Rgba8 { r: 0, g: 0, b: 0, a: 255 }
    }

    fn write_to_buffer(&self, buffer: &mut Vec<u8>) {
        buffer.push(self.r);
        buffer.push(self.g);
        buffer.push(self.b);
        buffer.push(self.a);
        assert(buffer@ =~= old(buffer)@ + self.spec_bytes());
    }
}

/// A three-channel byte pixel.
#[derive(Clone, Copy, Debug, PartialEq, Eq, Structural)]
pub struct Rgb8 {
    pub r: u8,
    pub g: u8,
    pub b: u8,
}

impl Default for Rgb8 {
    fn default() -> (p: Self)
        ensures
            p == (Rgb8 { r: 0u8, g: 0u8, b: 0u8 }),
    {
        Rgb8 { r: 0, g: 0, b: 0 }
    }
}

impl PixelType for Rgb8 {
    open spec fn spec_bytes(&self) -> Seq<u8> {
        seq![self.r, self.g, self.b]
    }

    open spec fn spec_byte_count() -> int {
        3
    }

    proof fn lemma_byte_count(&self) {
    }

    open spec fn spec_default() -> Self {
        Rgb8 { r: 0u8, g: 0u8, b: 0u8 }
    }

    fn default_pixel() -> (p: Self) {
        Rgb8 { r: 0, g: 0, b: 0 }
    }

    fn write_to_buffer(&self, buffer: &mut Vec<u8>) {
        buffer.push(self.r);
        buffer.push(self.g);
        buffer.push(self.b);
        assert(buffer@ =~= old(buffer)@ + self.spec_bytes());
    }
}

/// A two-channel byte pixel.  Only the first channel reaches a raw binary
/// dump.
#[derive(Clone, Copy, Debug, PartialEq, Eq, Structural)]
pub struct Rg8 {
    pub r: u8,
    pub g: u8,
}

impl Default for Rg8 {
    fn default() -> (p: Self)
        ensures
            p == (Rg8 { r: 0u8, g: 0u8 }),
    {
        Rg8 { r: 0, g: 0 }
    }
}

impl PixelType for Rg8 {
    open spec fn spec_bytes(&self) -> Seq<u8> {
        seq![self.r]
    }

    open spec fn spec_byte_count() -> int {
        1
    }

    proof fn lemma_byte_count(&self) {
    }

    open spec fn spec_default() -> Self {
        Rg8 { r: 0u8, g: 0u8 }
    }

    fn default_pixel() -> (p: Self) {
        Rg8 { r: 0, g: 0 }
    }

    fn write_to_buffer(&self, buffer: &mut Vec<u8>) {
        buffer.push(self.r);
        assert(buffer@ =~= old(buffer)@ + self.spec_bytes());
    }
}

/// A single-channel byte pixel.
#[derive(Clone, Copy, Debug, PartialEq, Eq, Structural)]
pub struct R8 {
    pub r: u8,
}

impl Default for R8 {
    fn default() -> (p: Self)
        ensures
            p == (R8 { r: 0u8 }),
    {
        R8 { r: 0 }
    }
}

impl PixelType for R8 {
    open spec fn spec_bytes(&self) -> Seq<u8> {
        seq![self.r]
    }

    open spec fn spec_byte_count() -> int {
        1
    }

    proof fn lemma_byte_count(&self) {
    }

    open spec fn spec_default() -> Self {
        R8 { r: 0u8 }
    }

    fn default_pixel() -> (p: Self) {
        R8 { r: 0 }
    }

    fn write_to_buffer(&self, buffer: &mut Vec<u8>) {
        buffer.push(self.r);
        assert(buffer@ =~= old(buffer)@ + self.spec_bytes());
    }
}

/// A noise texture: a shape plus one pixel per voxel, addressed linearly.
pub struct Noisetex<P: PixelType> {
    info: NoisetexInfo,
    pixels: Vec<P>,
}

pub type NoisetexRgba8 = Noisetex<Rgba8>;

pub type NoisetexRgb8 = Noisetex<Rgb8>;

pub type NoisetexRg8 = Noisetex<Rg8>;

pub type NoisetexR8 = Noisetex<R8>;

/// The bytes of a pixel sequence in linear order.
pub open spec fn bytes_of_pixels<P: PixelType>(s: Seq<P>) -> Seq<u8>
    decreases s.len(),
{
    if s.len() == 0 {
        Seq::empty()
    } else {
        bytes_of_pixels(s.drop_last()) + s.last().spec_bytes()
    }
}

/// A raw binary dump is exactly `spec_byte_count` bytes per voxel.
pub proof fn lemma_bytes_of_pixels_len<P: PixelType>(s: Seq<P>)
    ensures
        bytes_of_pixels(s).len() == s.len() * P::spec_byte_count(),
    decreases s.len(),
{
    if s.len() == 0 {
    } else {
        lemma_bytes_of_pixels_len(s.drop_last());
        s.last().lemma_byte_count();
        assert(s.len() * P::spec_byte_count() == (s.len() - 1) * P::spec_byte_count()
            + P::spec_byte_count()) by (nonlinear_arith);
    }
}

impl<P: PixelType> Noisetex<P> {
    /// The texture's shape.
    pub closed spec fn spec_info(&self) -> NoisetexInfo {
        self.info
    }

    /// The texture's pixels in linear order.
    pub closed spec fn spec_pixels(&self) -> Seq<P> {
        self.pixels@
    }

    /// A well-formed texture holds exactly one pixel per voxel of a bounded
    /// shape.
    pub open spec fn wf(&self) -> bool {
        &&& self.spec_info().bounded()
        &&& self.spec_pixels().len() == self.spec_info().voxel_count()
    }

    /// Create a texture of the given shape, every voxel holding the default
    /// pixel.
    pub fn new(width: u32, height: u32, depth: u32) -> (r: Self)
        requires
            width * height <= u32::MAX,
            width * height * depth <= u32::MAX,
        ensures
            r.wf(),
            r.spec_info() == (NoisetexInfo { width, height, depth }),
            r.spec_pixels().len() == r.spec_info().voxel_count(),
            forall|i: int|
                0 <= i < r.spec_pixels().len() ==> r.spec_pixels()[i] == P::spec_default(),
    {
        let info = NoisetexInfo { width, height, depth };
        let count = width * height * depth;
        let n = count as usize;
        let mut pixels: Vec<P> = Vec::new();
        let mut i: usize = 0;
        while i < n
            invariant
                i <= n,
                pixels@.len() == i,
                forall|j: int| 0 <= j < i ==> pixels@[j] == P::spec_default(),
            decreases n - i,
        {
            pixels.push(P::default_pixel());
            i += 1;
        }
        Noisetex { info, pixels }
    }

    /// The shape of this texture.
    pub fn info(&self) -> (r: NoisetexInfo)
        ensures
            r == self.spec_info(),
    {
        self.info
    }

    /// Read-only access to the pixel buffer in linear order.
    pub fn pixels(&self) -> (r: &Vec<P>)
        ensures
            r@ == self.spec_pixels(),
    {
        &self.pixels
    }

    /// Replace the pixel buffer wholesale; the new buffer must match the
    /// shape voxel for voxel.
    pub fn set_pixels(&mut self, pixels: Vec<P>)
        requires
            old(self).wf(),
            pixels@.len() == old(self).spec_pixels().len(),
        ensures
            final(self).wf(),
            final(self).spec_info() == old(self).spec_info(),
            final(self).spec_pixels() == pixels@,
    {
        self.pixels = pixels;
    }

    /// Decode a linear slot into the (x, y, z) coordinate it addresses.
    pub fn index_to_coord(index: u32, width: u32, height: u32) -> (r: (u32, u32, u32))
        requires
            width > 0,
            height > 0,
            width * height <= u32::MAX,
        ensures
            r.0 == index_x(index as int, width as int, height as int),
            r.1 == index_y(index as int, width as int, height as int),
            r.2 == index_z(index as int, width as int, height as int),
    {
        proof {
            assert(width * height > 0) by (nonlinear_arith)
                requires
                    width > 0,
                    height > 0,
            ;
        }
        let slice_size = width * height;
        let remainder = index % slice_size;

        let x = remainder % width;
        let y = remainder / width;
        let z = index / slice_size;

        (x, y, z)
    }

    /// Run the per-voxel kernel over every voxel: slot `i` ends up holding a
    /// value the kernel can produce for the coordinate decoded from `i`.
    pub fn fill<F: Fn(NoisetexInfo, UVec3) -> P>(&mut self, function: F)
        requires
            old(self).wf(),
            forall|xyz: UVec3|
                xyz.x < old(self).spec_info().width && xyz.y < old(self).spec_info().height
                    && xyz.z < old(self).spec_info().depth ==> #[trigger] call_requires(
                    function,
                    (old(self).spec_info(), xyz),
                ),
        ensures
            final(self).wf(),
            final(self).spec_info() == old(self).spec_info(),
            final(self).spec_pixels().len() == old(self).spec_pixels().len(),
            forall|i: int|
                0 <= i < final(self).spec_pixels().len() ==> call_ensures(
                    function,
                    (old(self).spec_info(), old(self).spec_info().coord_of(i)),
                    #[trigger] final(self).spec_pixels()[i],
                ),
    {
        let info = self.info;
        let n = self.pixels.len();
        let mut i: usize = 0;
        while i < n
            invariant
                self.wf(),
                self.info == info,
                info == old(self).spec_info(),
                n == self.pixels@.len(),
                i <= n,
                forall|xyz: UVec3|
                    xyz.x < info.width && xyz.y < info.height && xyz.z < info.depth
                        ==> #[trigger] call_requires(function, (info, xyz)),
                forall|j: int|
                    0 <= j < i ==> call_ensures(
                        function,
                        (info, info.coord_of(j)),
                        #[trigger] self.pixels@[j],
                    ),
            decreases n - i,
        {
            proof {
                assert(info.width > 0 && info.height > 0 && info.depth > 0) by (nonlinear_arith)
                    requires
                        i < n,
                        n == info.width * info.height * info.depth,
                ;
                lemma_index_decode(
                    i as int,
                    info.width as int,
                    info.height as int,
                    info.depth as int,
                );
            }
            let idx = i as u32;
            let (x, y, z) = Self::index_to_coord(idx, info.width, info.height);
            let p = function(info, UVec3 { x, y, z });
            self.pixels.set(i, p);
            i += 1;
        }
    }

    /// Filling is deterministic: if two equally-shaped pixel buffers were
    /// both produced by kernels that realise the same per-voxel function,
    /// they are identical — independent of evaluation order, so a serial
    /// and a concurrent fill of the same kernel agree.
    pub proof fn lemma_fill_deterministic(
        info: NoisetexInfo,
        pa: Seq<P>,
        pb: Seq<P>,
        g: spec_fn(NoisetexInfo, UVec3) -> P,
    )
        requires
            pa.len() == pb.len(),
            forall|i: int| 0 <= i < pa.len() ==> #[trigger] pa[i] == g(info, info.coord_of(i)),
            forall|i: int| 0 <= i < pb.len() ==> #[trigger] pb[i] == g(info, info.coord_of(i)),
        ensures
            pa == pb,
    {
        assert(pa =~= pb);
    }

    /// Serialize the whole texture: the bytes of every pixel, in linear
    /// voxel order.
    pub fn to_buffer(&self) -> (r: Vec<u8>)
        ensures
            r@ == bytes_of_pixels(self.spec_pixels()),
    {
        let mut buffer: Vec<u8> = Vec::new();
        let n = self.pixels.len();
        let mut i: usize = 0;
        while i < n
            invariant
                i <= n,
                n == self.pixels@.len(),
                buffer@ == bytes_of_pixels(self.pixels@.take(i as int)),
            decreases n - i,
        {
            let pixel = &self.pixels[i];
            pixel.write_to_buffer(&mut buffer);
            proof {
                let taken = self.pixels@.take(i + 1 as int);
                assert(taken.drop_last() =~= self.pixels@.take(i as int));
                assert(taken.last() == self.pixels@[i as int]);
            }
            i += 1;
        }
        proof {
            assert(self.pixels@.take(n as int) =~= self.pixels@);
        }
        buffer
    }
}

} // verus!
