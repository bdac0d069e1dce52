//! Frame pacing: deciding once per tick whether playback advances.
//!
//! The pacer accumulates elapsed wall-clock time and signals an advance as
//! soon as the accumulated time reaches the target frame interval. On an
//! advance the clock resets to exactly zero: drift is discarded rather than
//! carried forward, a best-effort policy that can fall behind real time but
//! never reorders frames.

use vstd::prelude::*;

use crate::error::PipelineError;

verus! {

/// One pacing step: the accumulated clock grows by the elapsed time, and an
/// advance is signaled exactly when it reaches the target interval, resetting
/// the clock to zero.
pub open spec fn spec_pace(accumulated: int, elapsed: int, target: int) -> (bool, int) {
    if accumulated + elapsed >= target {
        (true, 0)
    } else {
        (false, accumulated + elapsed)
    }
}

/// Decide whether enough time has passed to advance to a new frame.
///
/// Returns the advance decision and the new accumulated time. However large
/// `elapsed_ms` is, the result is a single advance signal: catch-up is never
/// attempted.
pub fn should_advance(accumulated_ms: u64, elapsed_ms: u64, target_ms: u64) -> (r: (bool, u64))
    ensures
        (r.0, r.1 as int) == spec_pace(accumulated_ms as int, elapsed_ms as int, target_ms as int),
{
    match accumulated_ms.checked_add(elapsed_ms) {
        None => (true, 0),
        Some(sum) => {
            if sum >= target_ms {
                (true, 0)
            } else {
                (false, sum)
            }
        },
    }
}

/// The nominal time between successive frames, from the stream metadata.
///
/// Fails fast with `StreamOpenFailure` when the duration or the frame count
/// is zero, since the interval is undefined there; otherwise the interval is
/// the duration divided evenly over the frames.
pub fn target_interval_ms(duration_ms: u64, frame_count: u64) -> (r: Result<u64, PipelineError>)
    ensures
        r is Ok <==> duration_ms > 0 && frame_count > 0,
        r is Ok ==> r.unwrap() == duration_ms as int / frame_count as int,
        r is Err ==> r == Err::<u64, PipelineError>(PipelineError::StreamOpenFailure),
{
    if duration_ms == 0 || frame_count == 0 {
        Err(PipelineError::StreamOpenFailure)
    } else {
        Ok(duration_ms / frame_count)
    }
}

/// The accumulated clock after feeding a whole sequence of elapsed-time
/// deltas through the pacer, starting from zero.
pub open spec fn accumulated_after(deltas: Seq<u64>, target: int) -> int
    decreases deltas.len(),
{
    if deltas.len() == 0 {
        0
    } else {
        spec_pace(accumulated_after(deltas.drop_last(), target), deltas.last() as int, target).1
    }
}

/// Pacing monotonicity: over any sequence of elapsed-time deltas the
/// accumulated clock never goes negative, and any tick on which the pacer
/// signals an advance leaves the clock at exactly zero.
pub proof fn lemma_pacing_monotone(deltas: Seq<u64>, target: int)
    ensures
        0 <= accumulated_after(deltas, target),
        deltas.len() > 0 && spec_pace(
            accumulated_after(deltas.drop_last(), target),
            deltas.last() as int,
            target,
        ).0 ==> accumulated_after(deltas, target) == 0,
    decreases deltas.len(),
{
    if deltas.len() > 0 {
        lemma_pacing_monotone(deltas.drop_last(), target);
    }
}

} // verus!
