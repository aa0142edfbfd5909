//! Core logic of a streaming internet-radio client: clock-offset
//! estimation, metadata polling with track-change detection, the
//! decode-loop state machine with play/pause gating, and progress
//! computation over shared playback state.

pub mod channel;
pub mod clock;
pub mod errors;
pub mod metadata;
pub mod poller;
pub mod progress;
pub mod state;
pub mod stream;
