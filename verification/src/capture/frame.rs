//! Raw RGBA frames.
use vstd::prelude::*;

verus! {

/// Number of bytes per pixel of a frame: red, green, blue, alpha.
pub const CHANNELS: usize = 4;

/// Mathematical content of a [`Frame`].
pub struct FrameView {
    pub width: u32,
    pub height: u32,
    /// Row-major RGBA bytes, four per pixel.
    pub pixels: Seq<u8>,
}

/// Whether a buffer of `len` bytes is a `width` by `height` RGBA frame that
/// can still be resampled row by row within the address space.
pub open spec fn frame_shape(width: u32, height: u32, len: nat) -> bool {
    &&& len == 4 * (width * height)
    &&& 256 * width <= usize::MAX
}

/// A captured image: `width * height` RGBA pixels in row-major order.
#[derive(Debug)]
pub struct Frame {
    width: u32,
    height: u32,
    pixels: Vec<u8>,
}

impl View for Frame {
    type V = FrameView;

    closed spec fn view(&self) -> FrameView {
        FrameView { width: self.width, height: self.height, pixels: self.pixels@ }
    }
}

impl Frame {
    #[verifier::type_invariant]
    spec fn well_formed(self) -> bool {
        frame_shape(self.width, self.height, self.pixels@.len())
    }

    /// Wraps a pixel buffer, or returns `None` when its length does not fit
    /// the dimensions.
    pub fn new(width: u32, height: u32, pixels: Vec<u8>) -> (frame: Option<Frame>)
        ensures
            frame is Some <==> frame_shape(width, height, pixels@.len()),
            frame matches Some(f) ==> f@ == (FrameView { width, height, pixels: pixels@ }),
    {
        assert(width * height <= 0xffff_ffff * 0xffff_ffff) by (nonlinear_arith)
            requires
                width <= 0xffff_ffff,
                height <= 0xffff_ffff,
        ;
        let area: u64 = (width as u64) * (height as u64);
        let len: u64 = pixels.len() as u64;
        if len % 4 == 0 && len / 4 == area && (width as u64) <= (usize::MAX as u64) / 256 {
            Some(Frame { width, height, pixels })
        } else {
            None
        }
    }

    /// Width in pixels.
    pub fn width(&self) -> (w: u32)
        ensures
            w == self@.width,
    {
        self.width
    }

    /// Height in pixels.
    pub fn height(&self) -> (h: u32)
        ensures
            h == self@.height,
    {
        self.height
    }

    /// The RGBA bytes, row by row.
    pub fn pixels(&self) -> (p: &Vec<u8>)
        ensures
            p@ == self@.pixels,
            frame_shape(self@.width, self@.height, p@.len()),
    {
        proof {
            use_type_invariant(self);
        }
        &self.pixels
    }

    /// Gives the pixel buffer back.
    pub fn into_raw(self) -> (p: Vec<u8>)
        ensures
            p@ == self@.pixels,
            frame_shape(self@.width, self@.height, p@.len()),
    {
        proof {
            use_type_invariant(&self);
        }
        self.pixels
    }
}

} // verus!
