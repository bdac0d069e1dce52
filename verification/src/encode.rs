//! The still encoder: compressing a canonical frame into a JPEG byte stream.
//!
//! The compression itself is done by the `jpeg_encoder` crate; its output is
//! named by the uninterpreted function [`jpeg_of`], a pure function of the
//! pixel bytes, the dimensions and the quality. Everything around the call —
//! validating the frame, deciding when encoding is owed to succeed — is
//! verified here.

use vstd::prelude::*;

use crate::error::PipelineError;
use crate::frame::CanonicalFrame;

verus! {

/// The JPEG byte stream that `jpeg_encoder` produces for the given
/// interleaved RGB pixels, dimensions and quality. The encoder is a pure
/// function of these inputs: it draws on no clock, randomness or machine
/// state, so the result is named rather than spelled out.
pub uninterp spec fn jpeg_of(pixels: Seq<u8>, width: u16, height: u16, quality: u8) -> Seq<u8>;

/// Relies on `jpeg_encoder::Encoder::new` and `Encoder::encode` with an
/// in-memory output buffer: the output depends on the pixel bytes, the
/// dimensions and the quality alone, and with nonzero dimensions and a
/// buffer of exactly `width * height * 3` bytes the encoder succeeds (the
/// `Vec` writer is infallible and the data-length check passes).
#[verifier::external_body]
fn jpeg_encode_rgb(pixels: &Vec<u8>, width: u16, height: u16, quality: u8) -> (r: Vec<u8>)
    requires
        width > 0,
        height > 0,
        pixels@.len() == width * height * 3,
    ensures
        r@ == jpeg_of(pixels@, width, height, quality),
{
    let mut out: Vec<u8> = Vec::new();
    let encoder = jpeg_encoder::Encoder::new(&mut out, quality);
    encoder
        .encode(pixels.as_slice(), width, height, jpeg_encoder::ColorType::Rgb)
        .unwrap();
    out
}

/// What [`encode`] returns, at the specification level: the named JPEG bytes
/// on a frame with nonzero dimensions, `EncodeError` otherwise.
pub open spec fn spec_encode(frame: CanonicalFrame, quality: u8) -> Result<Seq<u8>, PipelineError> {
    if frame.width == 0 || frame.height == 0 {
        Err(PipelineError::EncodeError)
    } else {
        Ok(jpeg_of(frame.buffer@, frame.width, frame.height, quality))
    }
}

/// Compress a canonical frame into a JPEG byte stream at the given quality.
///
/// A frame with a zero width or height is rejected with `EncodeError` before
/// any output byte is produced; every other well-formed frame encodes
/// successfully, and the result is exactly the byte stream named by
/// [`jpeg_of`] — a function of the frame and the quality and nothing else.
pub fn encode(frame: &CanonicalFrame, quality: u8) -> (r: Result<Vec<u8>, PipelineError>)
    requires
        frame.well_formed(),
        quality <= 100,
    ensures
        r is Ok <==> spec_encode(*frame, quality) is Ok,
        r matches Ok(bytes) ==> bytes@ == spec_encode(*frame, quality).unwrap(),
        r is Err ==> r == Err::<Vec<u8>, PipelineError>(PipelineError::EncodeError),
        r is Err <==> frame.width == 0 || frame.height == 0,
{
    if frame.width == 0 || frame.height == 0 {
        Err(PipelineError::EncodeError)
    } else {
        Ok(jpeg_encode_rgb(&frame.buffer, frame.width, frame.height, quality))
    }
}

/// Encode determinism: two canonical frames with the same dimensions and the
/// same pixel bytes encode to byte-identical output at the same quality.
pub proof fn lemma_encode_deterministic(
    f1: CanonicalFrame,
    f2: CanonicalFrame,
    q1: u8,
    q2: u8,
)
    requires
        f1.width == f2.width,
        f1.height == f2.height,
        f1.buffer@ == f2.buffer@,
        q1 == q2,
    ensures
        spec_encode(f1, q1) == spec_encode(f2, q2),
{
}

} // verus!
