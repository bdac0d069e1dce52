//! Frame representations and the pixel converter.
//!
//! A `RawFrame` is what the decoder hands over: declared dimensions, a pixel
//! format tag and the raw byte buffer. A `CanonicalFrame` is the single
//! normalized representation every downstream component consumes: a tightly
//! packed, row-major RGB buffer of exactly `width * height * 3` bytes.

use vstd::prelude::*;

use crate::error::PipelineError;

verus! {

/// The decoder-native pixel layout of a raw frame's buffer.
#[derive(Clone, Copy, Debug, PartialEq, Eq, Structural)]
pub enum PixelFormat {
    /// Interleaved 8-bit RGB, three bytes per pixel, row-major, no padding.
    Rgb24,
}

impl PixelFormat {
    /// How many bytes one pixel occupies in this format.
    pub open spec fn spec_bytes_per_pixel(self) -> int {
        match self {
            PixelFormat::Rgb24 => 3,
        }
    }

    /// Executable counterpart of [`Self::spec_bytes_per_pixel`].
    pub fn bytes_per_pixel(self) -> (n: u8)
        ensures
            n as int == self.spec_bytes_per_pixel(),
    {
        match self {
            PixelFormat::Rgb24 => 3,
        }
    }
}

/// One decoder-native frame, transient between decode and conversion.
#[derive(Debug)]
pub struct RawFrame {
    /// Declared width in pixels.
    pub width: u16,
    /// Declared height in pixels.
    pub height: u16,
    /// Layout of `buffer`.
    pub format: PixelFormat,
    /// The raw pixel bytes, whose length must match the declared dimensions.
    pub buffer: Vec<u8>,
}

impl RawFrame {
    /// The buffer length the declared dimensions and format call for.
    pub open spec fn expected_len(self) -> int {
        self.width * self.height * self.format.spec_bytes_per_pixel()
    }

    /// The buffer is consistent with the declared dimensions.
    pub open spec fn well_formed(self) -> bool {
        self.buffer@.len() == self.expected_len()
    }
}

/// The canonical frame all downstream components consume.
#[derive(Debug)]
pub struct CanonicalFrame {
    /// Width in pixels.
    pub width: u16,
    /// Height in pixels.
    pub height: u16,
    /// Tightly packed RGB bytes; invariant: length is `width * height * 3`.
    pub buffer: Vec<u8>,
}

impl CanonicalFrame {
    /// The canonical-frame invariant: three bytes per pixel, no padding.
    pub open spec fn well_formed(self) -> bool {
        self.buffer@.len() == self.width * self.height * 3
    }
}

/// Normalize a decoder-native frame into the canonical RGB representation.
///
/// The buffer length is validated against the declared dimensions, never
/// assumed: a mismatch yields `MalformedFrame` rather than a frame of the
/// wrong shape. On success the canonical frame keeps the declared dimensions
/// and holds exactly `width * height * 3` bytes.
pub fn convert(raw: RawFrame) -> (r: Result<CanonicalFrame, PipelineError>)
    ensures
        r is Ok <==> raw.well_formed(),
        r is Err ==> r == Err::<CanonicalFrame, PipelineError>(PipelineError::MalformedFrame),
        r matches Ok(c) ==> {
            &&& c.width == raw.width
            &&& c.height == raw.height
            &&& c.buffer@ == raw.buffer@
            &&& c.buffer@.len() == raw.width * raw.height * 3
            &&& c.well_formed()
        },
{
    let bytes_per_pixel = raw.format.bytes_per_pixel();
    proof {
        assert(raw.width as int * raw.height as int * 3 <= 0xFFFF * 0xFFFF * 3)
            by (nonlinear_arith)
            requires
                raw.width <= 0xFFFF,
                raw.height <= 0xFFFF,
        ;
    }
    let expected: u64 = raw.width as u64 * raw.height as u64 * bytes_per_pixel as u64;
    if raw.buffer.len() as u64 == expected {
        Ok(CanonicalFrame { width: raw.width, height: raw.height, buffer: raw.buffer })
    } else {
        Err(PipelineError::MalformedFrame)
    }
}

} // verus!
