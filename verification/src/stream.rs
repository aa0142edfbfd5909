//! The decode-loop state machine: connect, scan the response header
//! byte by byte, validate the status line, then stream — decode,
//! attenuate, and emit sample batches gated by the play flag. The
//! transport reads and the frame decoding happen outside; this module
//! holds every decision the loop makes.

use vstd::prelude::*;
use crate::channel::{try_send, should_stop, SendOutcome};

verus! {

/// Whether `h` ends with the blank-line header terminator
/// `\r\n\r\n`.
pub open spec fn spec_header_complete(h: Seq<u8>) -> bool {
    &&& h.len() >= 4
    &&& h[h.len() - 4] == 13
    &&& h[h.len() - 3] == 10
    &&& h[h.len() - 2] == 13
    &&& h[h.len() - 1] == 10
}

/// Whether `h` begins with the one status line that signals success,
/// `HTTP/1.0 200 OK\r\n`.
pub open spec fn spec_status_ok(h: Seq<u8>) -> bool {
    &&& h.len() >= 17
    &&& h[0] == 72
    &&& h[1] == 84
    &&& h[2] == 84
    &&& h[3] == 80
    &&& h[4] == 47
    &&& h[5] == 49
    &&& h[6] == 46
    &&& h[7] == 48
    &&& h[8] == 32
    &&& h[9] == 50
    &&& h[10] == 48
    &&& h[11] == 48
    &&& h[12] == 32
    &&& h[13] == 79
    &&& h[14] == 75
    &&& h[15] == 13
    &&& h[16] == 10
}

/// One attenuated sample: the input scaled by the fixed factor
/// 7/100, rounded toward zero as the machine rounds a scaled sample.
pub open spec fn spec_attenuate(x: int) -> int {
    if x >= 0 {
        (x * 7) / 100
    } else {
        -(((-x) * 7) / 100)
    }
}

/// A whole decoded frame after attenuation.
pub open spec fn spec_scaled(s: Seq<i16>) -> Seq<i16> {
    s.map_values(|x: i16| spec_attenuate(x as int) as i16)
}

/// Scale one sample by the fixed attenuation factor.
pub fn attenuate_sample(x: i16) -> (r: i16)
    ensures
        r == spec_attenuate(x as int),
{
    let wide: i32 = x as i32;
    if wide >= 0 {
        ((wide * 7) / 100) as i16
    } else {
        (-(((-wide) * 7) / 100)) as i16
    }
}

/// Scale every sample of a decoded frame by the fixed attenuation
/// factor, preserving order and length.
pub fn scale_samples(samples: &Vec<i16>) -> (r: Vec<i16>)
    ensures
        r@ == spec_scaled(samples@),
{
    let mut out: Vec<i16> = Vec::new();
    let mut i: usize = 0;
    while i < samples.len()
        invariant
            i <= samples.len(),
            out@.len() == i as int,
            forall|j: int|
                0 <= j < i ==> out@[j] == spec_attenuate(samples@[j] as int) as i16,
        decreases samples.len() - i,
    {
        let s = attenuate_sample(samples[i]);
        out.push(s);
        i += 1;
    }
    proof {
        assert(out@ =~= spec_scaled(samples@));
    }
    out
}

/// The per-frame emission decision: the batch to enqueue, if any.
/// While the play flag is false nothing is handed on — the frame is
/// decoded and then dropped at the source — and no batch produced
/// during a pause is retained for later.
pub fn frame_step(playing: bool, samples: &Vec<i16>) -> (r: Option<Vec<i16>>)
    ensures
        r is Some <==> playing,
        playing ==> (r matches Some(b) && b@ == spec_scaled(samples@)),
{
    if playing {
        Some(scale_samples(samples))
    } else {
        None
    }
}

/// Where the decode loop stands.
#[derive(Clone, Copy, Debug, PartialEq, Eq, Structural)]
pub enum StreamPhase {
    /// Opening the transport.
    Connecting,
    /// Reading response-header bytes until the blank line.
    HeaderWait,
    /// Pulling frames and emitting batches.
    Streaming,
    /// The receiver is gone; the loop ended cleanly.
    Terminated,
    /// A fatal condition ended the loop.
    Errored,
}

/// What one header byte brought.
#[derive(Clone, Copy, Debug, PartialEq, Eq, Structural)]
pub enum HeaderProgress {
    /// The terminator has not been seen yet; keep reading.
    Incomplete,
    /// Header done and the status line is the success line.
    Accepted,
    /// Header done but the status line is anything else: the stream
    /// was not found, which is fatal to the loop.
    Rejected,
}

/// What one decoded frame brought.
#[derive(Clone, Copy, Debug, PartialEq, Eq, Structural)]
pub enum FrameOutcome {
    /// The batch was handed to the channel.
    Emitted,
    /// The play flag was false; the batch was dropped at the source.
    DiscardedPaused,
    /// The receiver is gone; the loop is over.
    Stopped,
}

/// The decode loop's state: its phase and the header bytes
/// accumulated so far. A corrupt frame is transient and moves
/// nothing: the loop stays in `Streaming` and pulls the next frame.
pub struct StreamLoop {
    /// Where the loop stands.
    pub phase: StreamPhase,
    /// Header bytes read so far, oldest first.
    pub header: Vec<u8>,
}

impl StreamLoop {
    /// A loop about to open its transport.
    pub fn new() -> (r: StreamLoop)
        ensures
            r.phase is Connecting,
            r.header@ == Seq::<u8>::empty(),
    {
        StreamLoop { phase: StreamPhase::Connecting, header: Vec::new() }
    }

    /// The transport is open: start scanning the header.
    pub fn connected(&mut self)
        requires
            old(self).phase is Connecting,
        ensures
            final(self).phase is HeaderWait,
            final(self).header@ == old(self).header@,
    {
        self.phase = StreamPhase::HeaderWait;
    }

    /// Opening the transport failed, which is fatal to this loop.
    pub fn connect_failed(&mut self)
        requires
            old(self).phase is Connecting,
        ensures
            final(self).phase is Errored,
            final(self).header@ == old(self).header@,
    {
        self.phase = StreamPhase::Errored;
    }

    /// Take in one header byte. When the byte completes the blank-line
    /// terminator, the accumulated status line decides: the success
    /// line starts streaming, anything else is fatal.
    pub fn on_header_byte(&mut self, b: u8) -> (r: HeaderProgress)
        requires
            old(self).phase is HeaderWait,
            old(self).header.len() < usize::MAX,
        ensures
            final(self).header@ == old(self).header@ + seq![b],
            r is Incomplete <==> !spec_header_complete(final(self).header@),
            spec_header_complete(final(self).header@) ==> (r is Accepted <==> spec_status_ok(
                final(self).header@,
            )),
            r is Incomplete ==> final(self).phase is HeaderWait,
            r is Accepted ==> final(self).phase is Streaming,
            r is Rejected ==> final(self).phase is Errored,
    {
        self.header.push(b);
        let n = self.header.len();
        let complete = n >= 4 && self.header[n - 4] == 13 && self.header[n - 3] == 10
            && self.header[n - 2] == 13 && self.header[n - 1] == 10;
        if !complete {
            HeaderProgress::Incomplete
        } else if self.status_line_ok() {
            self.phase = StreamPhase::Streaming;
            HeaderProgress::Accepted
        } else {
            self.phase = StreamPhase::Errored;
            HeaderProgress::Rejected
        }
    }

    /// Whether the accumulated header starts with the success status
    /// line.
    fn status_line_ok(&self) -> (r: bool)
        ensures
            r == spec_status_ok(self.header@),
    {
        let h = &self.header;
        h.len() >= 17 && h[0] == 72 && h[1] == 84 && h[2] == 84 && h[3] == 80 && h[4] == 47
            && h[5] == 49 && h[6] == 46 && h[7] == 48 && h[8] == 32 && h[9] == 50 && h[10] == 48
            && h[11] == 48 && h[12] == 32 && h[13] == 79 && h[14] == 75 && h[15] == 13
            && h[16] == 10
    }

    /// Take in one decoded frame: attenuate it and, only while the
    /// play flag is true, hand the batch to the channel without
    /// blocking. A gone receiver ends the loop cleanly.
    pub fn on_frame(
        &mut self,
        playing: bool,
        samples: &Vec<i16>,
        sender: &crossbeam::channel::Sender<Vec<i16>>,
    ) -> (r: FrameOutcome)
        requires
            old(self).phase is Streaming,
        ensures
            final(self).header@ == old(self).header@,
            r is DiscardedPaused <==> !playing,
            r is Stopped <==> final(self).phase is Terminated,
            !(r is Stopped) ==> final(self).phase is Streaming,
    {
        match frame_step(playing, samples) {
            Some(batch) => {
                let outcome = try_send(sender, batch);
                if should_stop(&outcome) {
                    self.phase = StreamPhase::Terminated;
                    FrameOutcome::Stopped
                } else {
                    FrameOutcome::Emitted
                }
            },
            None => FrameOutcome::DiscardedPaused,
        }
    }
}

/// The batches a run of decoded frames enqueues: one attenuated batch
/// per frame during which the play flag stood true, in decode order.
/// [`frame_step`] realizes one step of this model.
pub open spec fn spec_enqueued_batches(events: Seq<(bool, Seq<i16>)>) -> Seq<Seq<i16>>
    decreases events.len(),
{
    if events.len() == 0 {
        Seq::empty()
    } else {
        let rest = spec_enqueued_batches(events.drop_last());
        if events.last().0 {
            rest.push(spec_scaled(events.last().1))
        } else {
            rest
        }
    }
}

/// While the play flag is false, no batch at all is enqueued, however
/// many frames are decoded meanwhile.
pub proof fn lemma_paused_enqueues_nothing(events: Seq<(bool, Seq<i16>)>)
    requires
        forall|i: int| 0 <= i < events.len() ==> !(#[trigger] events[i]).0,
    ensures
        spec_enqueued_batches(events) == Seq::<Seq<i16>>::empty(),
    decreases events.len(),
{
    if events.len() > 0 {
        lemma_paused_enqueues_nothing(events.drop_last());
        assert(!events[events.len() - 1].0);
    }
}

/// What two consecutive runs enqueue is what each enqueues, in order:
/// a run carries no hidden backlog into the next.
pub proof fn lemma_runs_concatenate(
    before: Seq<(bool, Seq<i16>)>,
    after: Seq<(bool, Seq<i16>)>,
)
    ensures
        spec_enqueued_batches(before + after) == spec_enqueued_batches(before)
            + spec_enqueued_batches(after),
    decreases after.len(),
{
    if after.len() == 0 {
        assert(before + after =~= before);
        assert(spec_enqueued_batches(before) + spec_enqueued_batches(after)
            =~= spec_enqueued_batches(before));
    } else {
        lemma_runs_concatenate(before, after.drop_last());
        assert((before + after).drop_last() =~= before + after.drop_last());
        assert((before + after).last() == after.last());
        if after.last().0 {
            assert(spec_enqueued_batches(before) + spec_enqueued_batches(after)
                =~= (spec_enqueued_batches(before) + spec_enqueued_batches(
                after.drop_last(),
            )).push(spec_scaled(after.last().1)));
        }
    }
}

/// Pausing and then resuming leaves no backlog: after a fully paused
/// run, the loop enqueues exactly what the resumed run alone
/// enqueues.
pub proof fn lemma_pause_then_resume(
    paused: Seq<(bool, Seq<i16>)>,
    resumed: Seq<(bool, Seq<i16>)>,
)
    requires
        forall|i: int| 0 <= i < paused.len() ==> !(#[trigger] paused[i]).0,
    ensures
        spec_enqueued_batches(paused + resumed) == spec_enqueued_batches(resumed),
{
    lemma_runs_concatenate(paused, resumed);
    lemma_paused_enqueues_nothing(paused);
    assert(spec_enqueued_batches(paused) + spec_enqueued_batches(resumed) =~= spec_enqueued_batches(
        resumed,
    ));
}

} // verus!
