//! The pipeline driver: one playback session as an explicit state machine.
//!
//! One display refresh is one tick, split in two verified steps around the
//! decoder edge. [`PipelineDriver::begin_tick`] feeds the elapsed wall-clock
//! time to the pacer and answers with a [`TickDecision`]: halt the loop,
//! hold (re-present the previous frame), or advance. Only on an advance does
//! the driving loop call the decoder, and it hands the outcome — a raw frame
//! or end of stream — to [`PipelineDriver::complete_advance`], which
//! converts, encodes and transitions the state. The exhausted state is
//! terminal: from it every tick halts and nothing changes.

use vstd::prelude::*;

use crate::encode::{encode, spec_encode};
use crate::error::PipelineError;
use crate::frame::{CanonicalFrame, RawFrame, convert};
use crate::pacing::{should_advance, spec_pace, target_interval_ms};

verus! {

/// Where playback stands.
#[derive(Clone, Copy, Debug, PartialEq, Eq, Structural)]
pub enum PlaybackState {
    /// No frame has been decoded yet.
    Priming,
    /// Frames are being advanced and displayed.
    Playing,
    /// The decoder signaled end of stream, or a frame was fatally malformed.
    /// Terminal: no transition leaves this state.
    Exhausted,
}

/// What the driving loop must do this tick.
#[derive(Clone, Copy, Debug, PartialEq, Eq, Structural)]
pub enum TickDecision {
    /// Playback is exhausted: stop issuing ticks.
    Halt,
    /// Not enough time has accumulated: re-present the previous frame and
    /// skip decode and encode.
    Hold,
    /// Request the next frame from the decoder and hand the outcome to
    /// [`PipelineDriver::complete_advance`].
    Advance,
}

/// What the decoder edge produced when asked for the next frame.
#[derive(Debug)]
pub enum DecodeOutcome {
    /// The next raw frame, in source order.
    Frame(RawFrame),
    /// The stream has no more frames. A terminal signal, not an error.
    EndOfStream,
}

/// What the driving loop must do after a completed advance.
#[derive(Clone, Copy, Debug, PartialEq, Eq, Structural)]
pub enum AdvanceAction {
    /// A new canonical frame is in place: present it.
    Present,
    /// The stream is exhausted: shut the loop down cleanly.
    Finished,
}

/// The playback session: pacer clock, state, current frame and diagnostic
/// output, owned as one value and passed by exclusive reference into each
/// tick step.
#[derive(Debug)]
pub struct PipelineDriver {
    /// Where playback stands; see [`PlaybackState`].
    pub state: PlaybackState,
    /// The nominal time between frames, fixed at stream open.
    pub target_interval_ms: u64,
    /// Wall-clock time accumulated since the last frame advance.
    pub accumulated_ms: u64,
    /// How many frames have been advanced so far; strictly increasing by one
    /// per successful advance.
    pub frame_index: u64,
    /// JPEG quality for the diagnostic encoder, fixed at construction.
    pub quality: u8,
    /// The most recently converted frame, replaced wholesale on advance.
    pub current: Option<CanonicalFrame>,
    /// The most recently encoded JPEG byte stream, replaced on advance.
    pub last_encoded: Option<Vec<u8>>,
}

impl PipelineDriver {
    /// The driver's invariant, established by [`Self::open`] and preserved
    /// by every tick step.
    pub open spec fn well_formed(self) -> bool {
        &&& self.quality <= 100
        &&& (self.current matches Some(c) ==> c.well_formed())
        &&& (self.state is Priming ==> {
            self.current is None && self.last_encoded is None && self.frame_index == 0
        })
        &&& (self.state is Playing ==> self.current is Some)
    }

    /// Open a playback session over a stream with the given metadata.
    ///
    /// Fails fast with `StreamOpenFailure` when the duration or the frame
    /// count is zero — the target interval would be undefined — and never
    /// starts playback on such a stream. Otherwise the session starts in
    /// `Priming` with a zeroed clock and frame counter.
    pub fn open(duration_ms: u64, frame_count: u64, quality: u8) -> (r: Result<
        PipelineDriver,
        PipelineError,
    >)
        requires
            quality <= 100,
        ensures
            r is Ok <==> duration_ms > 0 && frame_count > 0,
            r is Err ==> r == Err::<PipelineDriver, PipelineError>(
                PipelineError::StreamOpenFailure,
            ),
            r matches Ok(d) ==> {
                &&& d.well_formed()
                &&& d.state is Priming
                &&& d.target_interval_ms == duration_ms as int / frame_count as int
                &&& d.accumulated_ms == 0
                &&& d.frame_index == 0
                &&& d.quality == quality
                &&& d.current is None
                &&& d.last_encoded is None
            },
    {
        let target = target_interval_ms(duration_ms, frame_count)?;
        Ok(
            PipelineDriver {
                state: PlaybackState::Priming,
                target_interval_ms: target,
                accumulated_ms: 0,
                frame_index: 0,
                quality,
                current: None,
                last_encoded: None,
            },
        )
    }

    /// What one tick decision does to the driver, at the specification
    /// level: from the terminal state, nothing; otherwise the pacer step on
    /// the accumulated clock.
    pub open spec fn spec_begin_tick(self, elapsed: int) -> (PipelineDriver, TickDecision) {
        if self.state is Exhausted {
            (self, TickDecision::Halt)
        } else {
            let (advance, new_accumulated) = spec_pace(
                self.accumulated_ms as int,
                elapsed,
                self.target_interval_ms as int,
            );
            (
                PipelineDriver { accumulated_ms: new_accumulated as u64, ..self },
                if advance {
                    TickDecision::Advance
                } else {
                    TickDecision::Hold
                },
            )
        }
    }

    /// Start one tick: accumulate the elapsed wall-clock time and decide
    /// whether to halt, hold or advance.
    ///
    /// From `Exhausted` the answer is always `Halt` and the driver is left
    /// untouched, so no decode, encode or present work follows — the
    /// terminal state has no outgoing transitions. Otherwise the decision is
    /// exactly the pacer's: at most one advance is signaled however large
    /// the elapsed time, the clock resets to zero precisely on an advance,
    /// and nothing but the clock changes.
    pub fn begin_tick(&mut self, elapsed_ms: u64) -> (d: TickDecision)
        requires
            old(self).well_formed(),
        ensures
            final(self).well_formed(),
            (*final(self), d) == old(self).spec_begin_tick(elapsed_ms as int),
            old(self).state is Exhausted ==> d is Halt && *final(self) == *old(self),
            !(old(self).state is Exhausted) ==> {
                let (advance, new_accumulated) = spec_pace(
                    old(self).accumulated_ms as int,
                    elapsed_ms as int,
                    old(self).target_interval_ms as int,
                );
                &&& d == (if advance {
                    TickDecision::Advance
                } else {
                    TickDecision::Hold
                })
                &&& final(self).accumulated_ms == new_accumulated
                &&& final(self).state == old(self).state
                &&& final(self).frame_index == old(self).frame_index
                &&& final(self).current == old(self).current
                &&& final(self).last_encoded == old(self).last_encoded
                &&& final(self).target_interval_ms == old(self).target_interval_ms
                &&& final(self).quality == old(self).quality
            },
    {
        match self.state {
            PlaybackState::Exhausted => TickDecision::Halt,
            _ => {
                let (advance, new_accumulated) = should_advance(
                    self.accumulated_ms,
                    elapsed_ms,
                    self.target_interval_ms,
                );
                self.accumulated_ms = new_accumulated;
                if advance {
                    TickDecision::Advance
                } else {
                    TickDecision::Hold
                }
            },
        }
    }

    /// Finish an advance tick with what the decoder edge produced.
    ///
    /// End of stream drives the single, clean transition into `Exhausted`.
    /// A raw frame is converted and encoded: on success the canonical frame
    /// replaces the previous one wholesale, the diagnostic JPEG is replaced,
    /// the frame counter grows by exactly one and the state becomes
    /// `Playing`. A malformed buffer or invalid encode dimensions is fatal
    /// for the session: the error is returned and the driver transitions to
    /// `Exhausted` without touching the previous frame. In every case at
    /// most one frame advance happens per tick.
    pub fn complete_advance(&mut self, outcome: DecodeOutcome) -> (r: Result<
        AdvanceAction,
        PipelineError,
    >)
        requires
            old(self).well_formed(),
            !(old(self).state is Exhausted),
            old(self).frame_index < u64::MAX,
        ensures
            final(self).well_formed(),
            final(self).frame_index <= old(self).frame_index + 1,
            final(self).accumulated_ms == old(self).accumulated_ms,
            final(self).target_interval_ms == old(self).target_interval_ms,
            final(self).quality == old(self).quality,
            outcome is EndOfStream ==> {
                &&& r == Ok::<AdvanceAction, PipelineError>(AdvanceAction::Finished)
                &&& final(self).state is Exhausted
                &&& final(self).frame_index == old(self).frame_index
                &&& final(self).current == old(self).current
                &&& final(self).last_encoded == old(self).last_encoded
            },
            outcome matches DecodeOutcome::Frame(raw) ==> {
                &&& !raw.well_formed() ==> {
                    &&& r == Err::<AdvanceAction, PipelineError>(PipelineError::MalformedFrame)
                    &&& final(self).state is Exhausted
                    &&& final(self).frame_index == old(self).frame_index
                    &&& final(self).current == old(self).current
                    &&& final(self).last_encoded == old(self).last_encoded
                }
                &&& raw.well_formed() && (raw.width == 0 || raw.height == 0) ==> {
                    &&& r == Err::<AdvanceAction, PipelineError>(PipelineError::EncodeError)
                    &&& final(self).state is Exhausted
                    &&& final(self).frame_index == old(self).frame_index
                    &&& final(self).current == old(self).current
                    &&& final(self).last_encoded == old(self).last_encoded
                }
                &&& raw.well_formed() && raw.width > 0 && raw.height > 0 ==> {
                    &&& r == Ok::<AdvanceAction, PipelineError>(AdvanceAction::Present)
                    &&& final(self).state is Playing
                    &&& final(self).frame_index == old(self).frame_index + 1
                    &&& final(self).current matches Some(c) && c.width == raw.width
                        && c.height == raw.height && c.buffer@ == raw.buffer@
                    &&& final(self).last_encoded matches Some(bytes) && bytes@ == spec_encode(
                        CanonicalFrame { width: raw.width, height: raw.height, buffer: raw.buffer },
                        old(self).quality,
                    ).unwrap()
                }
            },
    {
        match outcome {
            DecodeOutcome::EndOfStream => {
                self.state = PlaybackState::Exhausted;
                Ok(AdvanceAction::Finished)
            },
            DecodeOutcome::Frame(raw) => {
                let canonical = match convert(raw) {
                    Ok(c) => c,
                    Err(e) => {
                        self.state = PlaybackState::Exhausted;
                        return Err(e);
                    },
                };
                let bytes = match encode(&canonical, self.quality) {
                    Ok(b) => b,
                    Err(e) => {
                        self.state = PlaybackState::Exhausted;
                        return Err(e);
                    },
                };
                self.current = Some(canonical);
                self.last_encoded = Some(bytes);
                self.frame_index = self.frame_index + 1;
                self.state = PlaybackState::Playing;
                Ok(AdvanceAction::Present)
            },
        }
    }
}

/// Terminal state: once the driver is exhausted, a tick of any elapsed time
/// answers `Halt` and leaves the driver exactly as it is — the state never
/// leaves `Exhausted`, and no decode, encode or present work follows.
pub proof fn lemma_exhausted_is_terminal(d: PipelineDriver, elapsed: int)
    requires
        d.state is Exhausted,
    ensures
        d.spec_begin_tick(elapsed) == (d, TickDecision::Halt),
{
}

/// Single advance per tick: however large the elapsed time, the tick
/// decision never advances the frame counter itself, and never asks for
/// more than one decode.
pub proof fn lemma_single_advance_per_tick(d: PipelineDriver, elapsed: int)
    ensures
        d.spec_begin_tick(elapsed).0.frame_index == d.frame_index,
{
}

} // verus!

