use frame_pipeline::driver::{
    AdvanceAction, DecodeOutcome, PipelineDriver, PlaybackState, TickDecision,
};
use frame_pipeline::encode::encode;
use frame_pipeline::error::PipelineError;
use frame_pipeline::frame::{convert, CanonicalFrame, PixelFormat, RawFrame};
use frame_pipeline::pacing::{should_advance, target_interval_ms};

fn rgb_frame(width: u16, height: u16, byte: u8) -> RawFrame {
    RawFrame {
        width,
        height,
        format: PixelFormat::Rgb24,
        buffer: vec![byte; width as usize * height as usize * 3],
    }
}

#[test]
fn target_interval_is_duration_over_frames() {
    assert_eq!(target_interval_ms(10_000, 100), Ok(100));
    assert_eq!(target_interval_ms(10_000, 3), Ok(3333));
    assert_eq!(target_interval_ms(0, 100), Err(PipelineError::StreamOpenFailure));
    assert_eq!(target_interval_ms(10_000, 0), Err(PipelineError::StreamOpenFailure));
}

#[test]
fn open_fails_fast_on_degenerate_stream() {
    assert!(matches!(
        PipelineDriver::open(0, 50, 30),
        Err(PipelineError::StreamOpenFailure)
    ));
    assert!(matches!(
        PipelineDriver::open(5_000, 0, 30),
        Err(PipelineError::StreamOpenFailure)
    ));
}

#[test]
fn scenario_a_three_short_ticks_advance_once() {
    let mut driver = PipelineDriver::open(10_000, 100, 30).unwrap();
    assert_eq!(driver.target_interval_ms, 100);

    assert_eq!(driver.begin_tick(40), TickDecision::Hold);
    assert_eq!(driver.accumulated_ms, 40);
    assert_eq!(driver.begin_tick(40), TickDecision::Hold);
    assert_eq!(driver.accumulated_ms, 80);
    assert_eq!(driver.begin_tick(40), TickDecision::Advance);
    assert_eq!(driver.accumulated_ms, 0);
}

#[test]
fn scenario_b_short_buffer_is_malformed() {
    let raw = RawFrame {
        width: 4,
        height: 4,
        format: PixelFormat::Rgb24,
        buffer: vec![0u8; 47],
    };
    assert_eq!(convert(raw).unwrap_err(), PipelineError::MalformedFrame);
}

#[test]
fn scenario_c_end_of_stream_on_fifty_first_call() {
    let mut driver = PipelineDriver::open(5_000, 50, 30).unwrap();
    for i in 0..50u64 {
        assert_eq!(driver.begin_tick(100), TickDecision::Advance);
        let action = driver
            .complete_advance(DecodeOutcome::Frame(rgb_frame(2, 2, i as u8)))
            .unwrap();
        assert_eq!(action, AdvanceAction::Present);
        assert_eq!(driver.state, PlaybackState::Playing);
        assert_eq!(driver.frame_index, i + 1);
    }
    assert_eq!(driver.begin_tick(100), TickDecision::Advance);
    let action = driver.complete_advance(DecodeOutcome::EndOfStream).unwrap();
    assert_eq!(action, AdvanceAction::Finished);
    assert_eq!(driver.state, PlaybackState::Exhausted);
    assert_eq!(driver.frame_index, 50);
    // The tick loop halts: every further tick is a no-op Halt.
    assert_eq!(driver.begin_tick(100), TickDecision::Halt);
    assert_eq!(driver.begin_tick(10_000), TickDecision::Halt);
    assert_eq!(driver.state, PlaybackState::Exhausted);
}

#[test]
fn scenario_d_zero_width_yields_encode_error() {
    let frame = CanonicalFrame {
        width: 0,
        height: 4,
        buffer: Vec::new(),
    };
    assert_eq!(encode(&frame, 30).unwrap_err(), PipelineError::EncodeError);
}

#[test]
fn pacing_accumulates_and_resets_to_zero() {
    assert_eq!(should_advance(10, 20, 100), (false, 30));
    assert_eq!(should_advance(90, 20, 100), (true, 0));
    assert_eq!(should_advance(0, 0, 100), (false, 0));
    assert_eq!(should_advance(0, 0, 0), (true, 0));
    assert_eq!(should_advance(u64::MAX, 5, 100), (true, 0));
}

#[test]
fn huge_delta_advances_at_most_once_per_tick() {
    let mut driver = PipelineDriver::open(10_000, 100, 30).unwrap();
    assert_eq!(driver.begin_tick(1_000_000), TickDecision::Advance);
    assert_eq!(driver.frame_index, 0);
    driver
        .complete_advance(DecodeOutcome::Frame(rgb_frame(1, 1, 7)))
        .unwrap();
    assert_eq!(driver.frame_index, 1);
    assert_eq!(driver.state, PlaybackState::Playing);
    // The backlog is discarded, not caught up: the next short tick holds.
    assert_eq!(driver.begin_tick(50), TickDecision::Hold);
    assert_eq!(driver.frame_index, 1);
}

#[test]
fn convert_keeps_shape_and_bytes() {
    let raw = RawFrame {
        width: 2,
        height: 2,
        format: PixelFormat::Rgb24,
        buffer: (0u8..12).collect(),
    };
    let canonical = convert(raw).unwrap();
    assert_eq!(canonical.width, 2);
    assert_eq!(canonical.height, 2);
    assert_eq!(canonical.buffer.len(), 2 * 2 * 3);
    assert_eq!(canonical.buffer, (0u8..12).collect::<Vec<u8>>());
}

#[test]
fn convert_accepts_zero_sized_frame() {
    let raw = RawFrame {
        width: 0,
        height: 0,
        format: PixelFormat::Rgb24,
        buffer: Vec::new(),
    };
    let canonical = convert(raw).unwrap();
    assert_eq!(canonical.buffer.len(), 0);
}

#[test]
fn encode_is_deterministic_and_really_encodes() {
    let frame = CanonicalFrame {
        width: 8,
        height: 8,
        buffer: (0..8u16 * 8 * 3).map(|i| (i % 251) as u8).collect(),
    };
    let first = encode(&frame, 30).unwrap();
    let second = encode(&frame, 30).unwrap();
    assert_eq!(first, second);
    assert!(!first.is_empty());
    // A JPEG stream, not the input handed back: starts with the SOI marker.
    assert_eq!(&first[..2], &[0xFF, 0xD8]);
    assert_ne!(first, frame.buffer);
}

#[test]
fn malformed_frame_is_fatal_for_session() {
    let mut driver = PipelineDriver::open(10_000, 100, 30).unwrap();
    assert_eq!(driver.begin_tick(200), TickDecision::Advance);
    let raw = RawFrame {
        width: 4,
        height: 4,
        format: PixelFormat::Rgb24,
        buffer: vec![0u8; 47],
    };
    let err = driver.complete_advance(DecodeOutcome::Frame(raw)).unwrap_err();
    assert_eq!(err, PipelineError::MalformedFrame);
    assert_eq!(driver.state, PlaybackState::Exhausted);
    assert_eq!(driver.frame_index, 0);
    assert_eq!(driver.begin_tick(200), TickDecision::Halt);
}

#[test]
fn advance_replaces_frame_and_diagnostic_output() {
    let mut driver = PipelineDriver::open(1_000, 10, 75).unwrap();
    assert_eq!(driver.begin_tick(100), TickDecision::Advance);
    driver
        .complete_advance(DecodeOutcome::Frame(rgb_frame(2, 3, 10)))
        .unwrap();
    let first_frame = driver.current.as_ref().unwrap().buffer.clone();
    let first_jpeg = driver.last_encoded.clone().unwrap();
    assert_eq!(first_frame, vec![10u8; 2 * 3 * 3]);
    assert_eq!(first_jpeg, encode(driver.current.as_ref().unwrap(), 75).unwrap());

    assert_eq!(driver.begin_tick(100), TickDecision::Advance);
    driver
        .complete_advance(DecodeOutcome::Frame(rgb_frame(2, 3, 200)))
        .unwrap();
    assert_eq!(driver.current.as_ref().unwrap().buffer, vec![200u8; 2 * 3 * 3]);
    assert_ne!(driver.last_encoded.clone().unwrap(), first_jpeg);
    assert_eq!(driver.frame_index, 2);
}
