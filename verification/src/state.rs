//! Shared playback state: the clock offset, written once at startup
//! by the metadata poller, and the play flag, toggled only by explicit
//! user action. The two fields are independent; callers guard a value
//! of this type with a reader/writer lock and keep each critical
//! section to a single read or flip.

use vstd::prelude::*;

verus! {

/// The process-wide playback state shared by the loops and the
/// consumer.
#[derive(Clone, Copy, Debug, PartialEq, Eq, Structural)]
pub struct PlaybackState {
    /// The estimated clock offset in seconds, zero until estimated.
    pub offset: i64,
    /// Whether the consumer should accept audio right now.
    pub playing: bool,
}

impl PlaybackState {
    /// The state at startup: no offset estimated yet, playback on.
    pub fn new() -> (r: PlaybackState)
        ensures
            r.offset == 0,
            r.playing == true,
    {
        PlaybackState { offset: 0, playing: true }
    }

    /// Record the startup clock-offset estimate. The play flag is
    /// untouched.
    pub fn set_offset(&mut self, offset: i64)
        ensures
            final(self).offset == offset,
            final(self).playing == old(self).playing,
    {
        self.offset = offset;
    }

    /// Flip the play flag on explicit user action and report the new
    /// value, so the caller can pause or resume the output device to
    /// match. The offset is untouched.
    pub fn toggle(&mut self) -> (r: bool)
        ensures
            final(self).playing == !old(self).playing,
            final(self).offset == old(self).offset,
            r == final(self).playing,
    {
        self.playing = !self.playing;
        self.playing
    }

    /// The current play flag.
    pub fn is_playing(&self) -> (r: bool)
        ensures
            r == self.playing,
    {
        self.playing
    }

    /// The stored clock offset in seconds.
    pub fn clock_offset(&self) -> (r: i64)
        ensures
            r == self.offset,
    {
        self.offset
    }
}

} // verus!
