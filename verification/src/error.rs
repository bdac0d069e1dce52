//! Failure kinds of the playback pipeline.

use vstd::prelude::*;

verus! {

/// Everything that can go wrong in the pipeline core.
///
/// End of stream is deliberately not here: the decoder running out of frames
/// is the normal terminal outcome of playback, not a failure.
#[derive(Clone, Copy, Debug, PartialEq, Eq, Structural)]
pub enum PipelineError {
    /// The stream metadata cannot support playback: a zero duration or a zero
    /// frame count leaves the target frame interval undefined.
    StreamOpenFailure,
    /// The decoder handed back a buffer inconsistent with the dimensions it
    /// declared for the frame.
    MalformedFrame,
    /// A frame with invalid dimensions reached the still encoder.
    EncodeError,
}

} // verus!
