//! The output grid: `width * height` pixels, row-major, three bytes each.

use vstd::prelude::*;

verus! {

/// Offset of the red byte of pixel `(x, y)` in a row-major RGB buffer whose
/// rows hold `width` pixels; green and blue follow it.
pub open spec fn pixel_offset(width: nat, x: nat, y: nat) -> nat {
    3 * (y * width + x)
}

/// Exec counterpart of `pixel_offset`.
pub fn pixel_index(width: usize, x: usize, y: usize) -> (r: usize)
    requires
        x < width,
        3 * (y + 1) * width <= usize::MAX,
    ensures
        r == pixel_offset(width as nat, x as nat, y as nat),
{
    proof {
        assert(y * width + x < (y + 1) * width) by (nonlinear_arith)
            requires x < width;
        assert(3 * (y * width + x) < 3 * ((y + 1) * width)) by (nonlinear_arith)
            requires y * width + x < (y + 1) * width;
        assert(3 * ((y + 1) * width) == 3 * (y + 1) * width) by (nonlinear_arith);
    }
    3 * (y * width + x)
}

/// Width in whole pixels of an image `height` pixels tall whose sides stand
/// in the ratio `aspect_width : aspect_height`, rounded down.
pub fn width_for_aspect(height: usize, aspect_width: usize, aspect_height: usize) -> (r: usize)
    requires
        aspect_height > 0,
        aspect_width * height <= usize::MAX,
    ensures
        r == (aspect_width * height) as int / aspect_height as int,
{
    aspect_width * height / aspect_height
}

/// A finished image: `height` rows of `width` pixels, each an already
/// gamma-corrected 8-bit red, green, blue triple.
pub struct Frame {
    width: usize,
    height: usize,
    data: Vec<u8>,
}

impl Frame {
    pub closed spec fn spec_width(&self) -> nat {
        self.width as nat
    }

    pub closed spec fn spec_height(&self) -> nat {
        self.height as nat
    }

    /// The bytes of the frame, row after row.
    pub closed spec fn spec_bytes(&self) -> Seq<u8> {
        self.data@
    }

    /// The buffer holds exactly three bytes for every pixel.
    pub open spec fn wf(&self) -> bool {
        &&& self.spec_bytes().len() == 3 * self.spec_width() * self.spec_height()
        &&& 3 * self.spec_width() * self.spec_height() <= usize::MAX
    }

    /// The three bytes of pixel `(x, y)`.
    pub open spec fn spec_pixel(&self, x: nat, y: nat) -> Seq<u8> {
        let i = pixel_offset(self.spec_width(), x, y) as int;
        self.spec_bytes().subrange(i, i + 3)
    }

    /// A black frame of the given size.
    pub fn new(width: usize, height: usize) -> (r: Frame)
        requires
            3 * width * height <= usize::MAX,
        ensures
            r.wf(),
            r.spec_width() == width,
            r.spec_height() == height,
            forall|i: int| 0 <= i < r.spec_bytes().len() ==> r.spec_bytes()[i] == 0,
    {
        proof {
            assert(3 * width <= 3 * width * height || height == 0) by (nonlinear_arith);
        }
        // With no rows the width may be as large as a usize holds.
        let len: usize = if height == 0 { 0 } else { 3 * width * height };
        let mut data: Vec<u8> = Vec::with_capacity(len);
        let mut k: usize = 0;
        while k < len
            invariant
                k <= len,
                data@.len() == k,
                forall|i: int| 0 <= i < k ==> data@[i] == 0,
            decreases len - k,
        {
            data.push(0);
            k = k + 1;
        }
        Frame { width, height, data }
    }

    pub fn width(&self) -> (r: usize)
        ensures
            r == self.spec_width(),
    {
        self.width
    }

    pub fn height(&self) -> (r: usize)
        ensures
            r == self.spec_height(),
    {
        self.height
    }

    /// The bytes of the frame, row after row, three per pixel.
    pub fn as_bytes(&self) -> (r: &Vec<u8>)
        ensures
            r@ == self.spec_bytes(),
    {
        &self.data
    }

    proof fn lemma_pixel_in_bounds(&self, x: nat, y: nat)
        requires
            self.wf(),
            x < self.spec_width(),
            y < self.spec_height(),
        ensures
            pixel_offset(self.spec_width(), x, y) + 3 <= self.spec_bytes().len(),
            3 * (y + 1) * self.spec_width() <= self.spec_bytes().len(),
    {
        let w = self.spec_width();
        let h = self.spec_height();
        assert(y * w + x + 1 <= (y + 1) * w) by (nonlinear_arith)
            requires x < w;
        assert((y + 1) * w <= h * w) by (nonlinear_arith)
            requires y < h;
        assert(3 * (y * w + x) + 3 <= 3 * w * h) by (nonlinear_arith)
            requires y * w + x + 1 <= (y + 1) * w, (y + 1) * w <= h * w;
        assert(3 * (y + 1) * w <= 3 * w * h) by (nonlinear_arith)
            requires (y + 1) * w <= h * w;
    }

    /// The red, green and blue bytes of pixel `(x, y)`.
    pub fn pixel(&self, x: usize, y: usize) -> (r: [u8; 3])
        requires
            self.wf(),
            x < self.spec_width(),
            y < self.spec_height(),
        ensures
            r@ == self.spec_pixel(x as nat, y as nat),
    {
        proof {
            self.lemma_pixel_in_bounds(x as nat, y as nat);
        }
        let i = pixel_index(self.width, x, y);
        let r = [self.data[i], self.data[i + 1], self.data[i + 2]];
        assert(r@ =~= self.spec_pixel(x as nat, y as nat));
        r
    }

    /// Stores `rgb` as pixel `(x, y)`; every other byte stays as it was.
    pub fn set_pixel(&mut self, x: usize, y: usize, rgb: [u8; 3])
        requires
            old(self).wf(),
            x < old(self).spec_width(),
            y < old(self).spec_height(),
        ensures
            final(self).wf(),
            final(self).spec_width() == old(self).spec_width(),
            final(self).spec_height() == old(self).spec_height(),
            final(self).spec_bytes() == ({
                let i = pixel_offset(old(self).spec_width(), x as nat, y as nat) as int;
                old(self).spec_bytes().update(i, rgb[0]).update(i + 1, rgb[1]).update(i + 2, rgb[2])
            }),
    {
        proof {
            self.lemma_pixel_in_bounds(x as nat, y as nat);
        }
        let i = pixel_index(self.width, x, y);
        self.data.set(i, rgb[0]);
        self.data.set(i + 1, rgb[1]);
        self.data.set(i + 2, rgb[2]);
    }
}

} // verus!
