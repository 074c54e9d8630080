//! Image buffers: the raw mosaic frame downloaded from a sensor and the
//! three-channel preview produced by the debayer/resize pipeline.

use vstd::prelude::*;

use crate::device::ExposureParams;
use crate::geom::ImgSize;

verus! {

/// A single-channel pixel buffer in row-major order.
///
/// This is the library's model of a downloaded sensor frame: `pixels` holds
/// `height` rows of `width` samples each.
#[derive(PartialEq, Eq, Debug)]
pub struct FrameData {
    pub width: usize,
    pub height: usize,
    pub pixels: Vec<u16>,
}

impl FrameData {
    /// The buffer length matches the dimensions.
    pub open spec fn wf(self) -> bool {
        self.pixels.len() == self.width * self.height
    }

    /// Equal dimensions and equal pixel contents.
    pub open spec fn eqv(self, other: Self) -> bool {
        &&& self.width == other.width
        &&& self.height == other.height
        &&& self.pixels@ == other.pixels@
    }

    /// Runtime check of [`FrameData::wf`].
    pub fn is_wf(&self) -> (r: bool)
        ensures
            r == self.wf(),
    {
        match self.width.checked_mul(self.height) {
            Some(n) => self.pixels.len() == n,
            None => false,
        }
    }
}

/// A raw frame together with the exposure parameters that produced it.
#[derive(PartialEq, Eq, Debug)]
pub struct RawImage {
    pub params: ExposureParams,
    pub data: FrameData,
}

impl Clone for FrameData {
    fn clone(&self) -> (r: Self)
        ensures
            r.eqv(*self),
    {
        let pixels = self.pixels.clone();
        proof {
            assert(pixels@ =~= self.pixels@);
        }
        FrameData { width: self.width, height: self.height, pixels }
    }
}

impl RawImage {
    /// The buffer is consistent with the recorded exposure area.
    pub open spec fn wf(self) -> bool {
        &&& self.data.wf()
        &&& self.data.width == self.params.area.width
        &&& self.data.height == self.params.area.height
    }

    /// Equal parameters and equal frame contents.
    pub open spec fn eqv(self, other: Self) -> bool {
        self.params == other.params && self.data.eqv(other.data)
    }
}

impl Clone for RawImage {
    fn clone(&self) -> (r: Self)
        ensures
            r.eqv(*self),
    {
        RawImage { params: self.params, data: self.data.clone() }
    }
}

/// Three equal-sized single-channel buffers forming one preview image.
#[derive(Clone, PartialEq, Eq, Debug)]
pub struct RgbImage {
    pub width: usize,
    pub height: usize,
    pub red: Vec<u16>,
    pub green: Vec<u16>,
    pub blue: Vec<u16>,
}

impl RgbImage {
    /// All three channel buffers match the dimensions.
    pub open spec fn wf(self) -> bool {
        &&& self.red.len() == self.width * self.height
        &&& self.green.len() == self.width * self.height
        &&& self.blue.len() == self.width * self.height
    }

    /// The size of the image in pixels.
    pub open spec fn spec_size(self) -> ImgSize {
        ImgSize { x: self.width, y: self.height }
    }

    pub fn size(&self) -> (r: ImgSize)
        ensures
            r == self.spec_size(),
    {
        ImgSize { x: self.width, y: self.height }
    }

    /// The sample of `self.interleaved()` at flat pixel index `i`, channel `c`.
    pub open spec fn interleaved_at(self, i: int, c: int) -> u16 {
        if c == 0 {
            self.red[i]
        } else if c == 1 {
            self.green[i]
        } else {
            self.blue[i]
        }
    }

    /// One buffer holding red, green and blue samples of each pixel in turn,
    /// as PNG encoders expect.
    pub fn interleave(&self) -> (r: Vec<u16>)
        requires
            self.wf(),
            self.width * self.height * 3 <= usize::MAX,
        ensures
            r.len() == self.width * self.height * 3,
            forall|i: int, c: int|
                0 <= i < self.width * self.height && 0 <= c < 3 ==> r[3 * i + c]
                    == self.interleaved_at(i, c),
    {
        let n: usize = self.width * self.height;
        let mut out: Vec<u16> = Vec::new();
        let mut i: usize = 0;
        while i < n
            invariant
                i <= n,
                n == self.width * self.height,
                self.wf(),
                n * 3 <= usize::MAX,
                out.len() == 3 * i,
                forall|j: int, c: int|
                    0 <= j < i && 0 <= c < 3 ==> out[3 * j + c] == self.interleaved_at(j, c),
            decreases n - i,
        {
            assert(3 * i + 3 <= 3 * n);
            out.push(self.red[i]);
            out.push(self.green[i]);
            out.push(self.blue[i]);
            i = i + 1;
        }
        out
    }
}

} // verus!
