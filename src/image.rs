//! Captured frames: raw interleaved four-channel pixels with their size.
use vstd::prelude::*;

verus! {

/// The number of bytes that a frame of `width` by `height` pixels takes,
/// four channels per pixel.
pub open spec fn frame_len(width: u32, height: u32) -> int {
    4 * width * height
}

/// A captured frame. The channel order is the capture backend's own; the
/// library does not reorder it.
pub struct CapturedImage {
    /// The pixel bytes, row by row, four per pixel.
    pub data: Vec<u8>,
    /// Width in pixels.
    pub width: u32,
    /// Height in pixels.
    pub height: u32,
}

impl CapturedImage {
    /// A frame whose buffer holds exactly its pixels.
    pub open spec fn wf(&self) -> bool {
        self.data@.len() == frame_len(self.width, self.height)
    }

    /// Whether this is the "no result" frame: no bytes and no size.
    pub open spec fn is_absent(&self) -> bool {
        self.data@.len() == 0 && self.width == 0 && self.height == 0
    }

    /// The frame that stands for a failed capture.
    pub fn empty() -> (r: CapturedImage)
        ensures
            r.is_absent(),
            r.wf(),
    {
        CapturedImage { data: Vec::new(), width: 0, height: 0 }
    }

    /// Builds a frame from a pixel buffer that may run past the pixels; the
    /// bytes beyond them are dropped.
    pub fn from_rgba(width: u32, height: u32, raw: Vec<u8>) -> (r: CapturedImage)
        requires
            raw@.len() >= frame_len(width, height),
        ensures
            r.width == width,
            r.height == height,
            r.data@ == raw@.subrange(0, frame_len(width, height)),
            r.wf(),
    {
        let mut data = raw;
        let total = data.len();
        proof {
            assert(4 * (width as int) <= 4 * width * height || height == 0) by (nonlinear_arith);
            assert(4 * width * height == (4 * width) * height) by (nonlinear_arith);
            assert(height == 0 ==> 4 * width * height == 0) by (nonlinear_arith);
        }
        let n: usize = if height == 0 {
            0
        } else {
            4 * (width as usize) * (height as usize)
        };
        assert(n == frame_len(width, height));
        data.truncate(n);
        CapturedImage { data, width, height }
    }

    /// The buffer's length in bytes.
    pub fn len(&self) -> (r: usize)
        ensures
            r == self.data@.len(),
    {
        self.data.len()
    }
}

} // verus!
