//! A flat image volume addressed by `usize` indices.
//!
//! This is the lighter sibling of the noise-texture grid: the same linear
//! addressing and fill discipline over a pixel trait whose only obligation
//! is a byte image of each pixel.

use vstd::prelude::*;

use crate::index::{index_x, index_y, index_z, lemma_index_decode};

pub mod pixel;

use pixel::Pixel;

verus! {

/// Decode a linear slot of a `width`×`height` sliced volume into the
/// (x, y, z) coordinate it addresses.
pub fn index_to_xyz(index: usize, width: usize, height: usize) -> (r: (usize, usize, usize))
    requires
        width > 0,
        height > 0,
        width * height <= usize::MAX,
    ensures
        r.0 == index_x(index as int, width as int, height as int),
        r.1 == index_y(index as int, width as int, height as int),
        r.2 == index_z(index as int, width as int, height as int),
{
    proof {
        assert(width * height > 0) by (nonlinear_arith)
            requires
                width > 0,
                height > 0,
        ;
    }
    let slice_size = width * height;
    let remainder = index % slice_size;

    let x = remainder % width;
    let y = remainder / width;
    let z = index / slice_size;

    (x, y, z)
}

/// The bytes of a pixel sequence in linear order.
pub open spec fn bytes_of_pixels<T: Pixel>(s: Seq<T>) -> Seq<u8>
    decreases s.len(),
{
    if s.len() == 0 {
        Seq::empty()
    } else {
        bytes_of_pixels(s.drop_last()) + s.last().spec_bytes()
    }
}

/// An image volume: fixed shape, one pixel per cell, addressed linearly.
pub struct Image<T: Pixel> {
    width: usize,
    height: usize,
    depth: usize,
    pixels: Vec<T>,
}

impl<T: Pixel> Image<T> {
    /// The image's width.
    pub closed spec fn spec_width(&self) -> usize {
        self.width
    }

    /// The image's height.
    pub closed spec fn spec_height(&self) -> usize {
        self.height
    }

    /// The image's depth.
    pub closed spec fn spec_depth(&self) -> usize {
        self.depth
    }

    /// The image's pixels in linear order.
    pub closed spec fn spec_pixels(&self) -> Seq<T> {
        self.pixels@
    }

    /// A well-formed image holds exactly one pixel per cell.
    pub open spec fn wf(&self) -> bool {
        &&& self.spec_width() * self.spec_height() <= usize::MAX
        &&& self.spec_width() * self.spec_height() * self.spec_depth() <= usize::MAX
        &&& self.spec_pixels().len() == self.spec_width() * self.spec_height()
            * self.spec_depth()
    }

    /// The coordinate stored in linear slot `i` of this image.
    pub open spec fn coord_of(&self, i: int) -> (int, int, int) {
        (
            index_x(i, self.spec_width() as int, self.spec_height() as int),
            index_y(i, self.spec_width() as int, self.spec_height() as int),
            index_z(i, self.spec_width() as int, self.spec_height() as int),
        )
    }

    /// Create an image of the given shape, every cell holding the default
    /// pixel.
    pub fn new(width: usize, height: usize, depth: usize) -> (r: Self)
        requires
            width * height <= usize::MAX,
            width * height * depth <= usize::MAX,
        ensures
            r.wf(),
            r.spec_width() == width,
            r.spec_height() == height,
            r.spec_depth() == depth,
            forall|i: int|
                0 <= i < r.spec_pixels().len() ==> r.spec_pixels()[i] == T::spec_default(),
    {
        proof {
            assert(width * height * depth >= 0) by (nonlinear_arith)
                requires
                    width >= 0,
                    height >= 0,
                    depth >= 0,
            ;
            assert((width * height) * depth == width * height * depth);
        }
        let n = (width * height) * depth;
        let mut pixels: Vec<T> = Vec::new();
        let mut i: usize = 0;
        while i < n
            invariant
                i <= n,
                pixels@.len() == i,
                forall|j: int| 0 <= j < i ==> pixels@[j] == T::spec_default(),
            decreases n - i,
        {
            pixels.push(T::default_pixel());
            i += 1;
        }
        Image { width, height, depth, pixels }
    }

    /// Read-only access to the pixel buffer in linear order.
    pub fn pixels(&self) -> (r: &Vec<T>)
        ensures
            r@ == self.spec_pixels(),
    {
        &self.pixels
    }

    /// Replace the pixel buffer wholesale; the new buffer must match the
    /// shape cell for cell.
    pub fn set_pixels(&mut self, pixels: Vec<T>)
        requires
            old(self).wf(),
            pixels@.len() == old(self).spec_pixels().len(),
        ensures
            final(self).wf(),
            final(self).spec_width() == old(self).spec_width(),
            final(self).spec_height() == old(self).spec_height(),
            final(self).spec_depth() == old(self).spec_depth(),
            final(self).spec_pixels() == pixels@,
    {
        self.pixels = pixels;
    }

    /// Run the per-cell kernel over every cell: slot `i` ends up holding a
    /// value the kernel can produce for the coordinate decoded from `i`.
    pub fn fill<F: Fn(usize, usize, usize) -> T>(&mut self, kernel: F)
        requires
            old(self).wf(),
            forall|x: usize, y: usize, z: usize|
                x < old(self).spec_width() && y < old(self).spec_height() && z < old(
                    self,
                ).spec_depth() ==> #[trigger] call_requires(kernel, (x, y, z)),
        ensures
            final(self).wf(),
            final(self).spec_width() == old(self).spec_width(),
            final(self).spec_height() == old(self).spec_height(),
            final(self).spec_depth() == old(self).spec_depth(),
            final(self).spec_pixels().len() == old(self).spec_pixels().len(),
            forall|i: int|
                0 <= i < final(self).spec_pixels().len() ==> call_ensures(
                    kernel,
                    (
                        old(self).coord_of(i).0 as usize,
                        old(self).coord_of(i).1 as usize,
                        old(self).coord_of(i).2 as usize,
                    ),
                    #[trigger] final(self).spec_pixels()[i],
                ),
    {
        let w = self.width;
        let h = self.height;
        let d = self.depth;
        let n = self.pixels.len();
        let mut i: usize = 0;
        while i < n
            invariant
                self.wf(),
                self.width == w,
                self.height == h,
                self.depth == d,
                w == old(self).spec_width(),
                h == old(self).spec_height(),
                d == old(self).spec_depth(),
                n == self.pixels@.len(),
                i <= n,
                forall|x: usize, y: usize, z: usize|
                    x < w && y < h && z < d ==> #[trigger] call_requires(kernel, (x, y, z)),
                forall|j: int|
                    0 <= j < i ==> call_ensures(
                        kernel,
                        (
                            old(self).coord_of(j).0 as usize,
                            old(self).coord_of(j).1 as usize,
                            old(self).coord_of(j).2 as usize,
                        ),
                        #[trigger] self.pixels@[j],
                    ),
            decreases n - i,
        {
            proof {
                assert(w > 0 && h > 0 && d > 0) by (nonlinear_arith)
                    requires
                        i < n,
                        n == w * h * d,
                ;
                lemma_index_decode(i as int, w as int, h as int, d as int);
            }
            let (x, y, z) = index_to_xyz(i, w, h);
            let p = kernel(x, y, z);
            self.pixels.set(i, p);
            i += 1;
        }
    }

    /// Serialize the whole image: the bytes of every pixel, in linear order.
    pub fn to_buffer(&self) -> (r: Vec<u8>)
        ensures
            r@ == bytes_of_pixels(self.spec_pixels()),
    {
        let mut buffer: Vec<u8> = Vec::new();
        let n = self.pixels.len();
        let mut i: usize = 0;
        while i < n
            invariant
                i <= n,
                n == self.pixels@.len(),
                buffer@ == bytes_of_pixels(self.pixels@.take(i as int)),
            decreases n - i,
        {
            let pixel = &self.pixels[i];
            pixel.write_to_buffer(&mut buffer);
            proof {
                let taken = self.pixels@.take(i + 1 as int);
                assert(taken.drop_last() =~= self.pixels@.take(i as int));
                assert(taken.last() == self.pixels@[i as int]);
            }
            i += 1;
        }
        proof {
            assert(self.pixels@.take(n as int) =~= self.pixels@);
        }
        buffer
    }
}

} // verus!
