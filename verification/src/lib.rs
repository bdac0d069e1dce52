//! A verified core for a frame-paced video playback pipeline.
//!
//! The library holds the logic that decides when playback advances to a new
//! frame, how a decoder-native frame is normalized into a canonical RGB
//! frame, how that frame is compressed into a diagnostic JPEG, and how the
//! playback session reaches its terminal state at end of stream. Decoding
//! and rendering are collaborators at the edge: the driving loop performs
//! them and feeds their outcomes back into the verified state machine.

pub mod error;
pub mod pacing;
pub mod frame;
pub mod encode;
pub mod driver;
