use crossbeam::channel::unbounded;
use radio_core::stream::{
    attenuate_sample, frame_step, scale_samples, FrameOutcome, HeaderProgress, StreamLoop,
    StreamPhase,
};

fn feed_header(stream: &mut StreamLoop, header: &[u8]) -> HeaderProgress {
    stream.connected();
    let mut last = HeaderProgress::Incomplete;
    for &b in header {
        assert_eq!(last, HeaderProgress::Incomplete);
        last = stream.on_header_byte(b);
    }
    last
}

#[test]
fn success_status_line_starts_streaming() {
    let mut stream = StreamLoop::new();
    assert_eq!(stream.phase, StreamPhase::Connecting);
    let r = feed_header(
        &mut stream,
        b"HTTP/1.0 200 OK\r\nContent-Type: audio/mpeg\r\n\r\n",
    );
    assert_eq!(r, HeaderProgress::Accepted);
    assert_eq!(stream.phase, StreamPhase::Streaming);
}

#[test]
fn not_found_status_line_is_fatal_and_emits_nothing() {
    let (tx, rx) = unbounded::<Vec<i16>>();
    let mut stream = StreamLoop::new();
    let r = feed_header(
        &mut stream,
        b"HTTP/1.0 404 Not Found\r\nContent-Type: text/html\r\n\r\n",
    );
    assert_eq!(r, HeaderProgress::Rejected);
    assert_eq!(stream.phase, StreamPhase::Errored);
    // The loop never reaches Streaming, so no batch is ever enqueued.
    drop(tx);
    assert!(rx.try_recv().is_err());
}

#[test]
fn wrong_protocol_version_is_rejected() {
    let mut stream = StreamLoop::new();
    let r = feed_header(&mut stream, b"HTTP/1.1 200 OK\r\n\r\n");
    assert_eq!(r, HeaderProgress::Rejected);
}

#[test]
fn attenuation_matches_seven_hundredths() {
    assert_eq!(attenuate_sample(0), 0);
    assert_eq!(attenuate_sample(100), 7);
    assert_eq!(attenuate_sample(-100), -7);
    assert_eq!(attenuate_sample(157), 10);
    assert_eq!(attenuate_sample(-157), -10);
    assert_eq!(attenuate_sample(i16::MAX), 2293);
    assert_eq!(attenuate_sample(i16::MIN), -2293);
}

#[test]
fn attenuation_agrees_with_float_scaling_everywhere() {
    for x in i16::MIN..=i16::MAX {
        let float_scaled = (x as f32 * 0.07) as i16;
        assert_eq!(attenuate_sample(x), float_scaled, "sample {}", x);
    }
}

#[test]
fn scaling_preserves_order_and_length() {
    let frame = vec![0i16, 100, -100, 32767, -32768, 1];
    let scaled = scale_samples(&frame);
    assert_eq!(scaled, vec![0i16, 7, -7, 2293, -2293, 0]);
}

#[test]
fn paused_frame_produces_no_batch() {
    let frame = vec![100i16, -100];
    assert_eq!(frame_step(false, &frame), None);
    assert_eq!(frame_step(true, &frame), Some(vec![7i16, -7]));
}

#[test]
fn paused_frames_are_not_enqueued_and_leave_no_backlog() {
    let (tx, rx) = unbounded::<Vec<i16>>();
    let mut stream = StreamLoop::new();
    feed_header(&mut stream, b"HTTP/1.0 200 OK\r\n\r\n");
    // Decoding continues while paused, but nothing is enqueued.
    assert_eq!(
        stream.on_frame(false, &vec![100i16], &tx),
        FrameOutcome::DiscardedPaused
    );
    assert_eq!(
        stream.on_frame(false, &vec![200i16], &tx),
        FrameOutcome::DiscardedPaused
    );
    assert!(rx.try_recv().is_err());
    // Resuming emits only newly decoded frames: no backlog.
    assert_eq!(
        stream.on_frame(true, &vec![300i16], &tx),
        FrameOutcome::Emitted
    );
    assert_eq!(rx.try_recv().unwrap(), vec![21i16]);
    assert!(rx.try_recv().is_err());
}

#[test]
fn gone_receiver_terminates_the_decode_loop() {
    let (tx, rx) = unbounded::<Vec<i16>>();
    let mut stream = StreamLoop::new();
    feed_header(&mut stream, b"HTTP/1.0 200 OK\r\n\r\n");
    drop(rx);
    assert_eq!(
        stream.on_frame(true, &vec![100i16], &tx),
        FrameOutcome::Stopped
    );
    assert_eq!(stream.phase, StreamPhase::Terminated);
    // A paused frame while the receiver is gone is still just dropped.
    let (tx2, rx2) = unbounded::<Vec<i16>>();
    let mut stream2 = StreamLoop::new();
    feed_header(&mut stream2, b"HTTP/1.0 200 OK\r\n\r\n");
    drop(rx2);
    assert_eq!(
        stream2.on_frame(false, &vec![100i16], &tx2),
        FrameOutcome::DiscardedPaused
    );
    assert_eq!(stream2.phase, StreamPhase::Streaming);
}

#[test]
fn connect_failure_is_fatal() {
    let mut stream = StreamLoop::new();
    stream.connect_failed();
    assert_eq!(stream.phase, StreamPhase::Errored);
    assert_eq!(
        radio_core::errors::RadioError::ConnectFailed.message(),
        "could not connect to the stream"
    );
    assert_eq!(
        radio_core::errors::RadioError::StreamNotFound.message(),
        "stream not found"
    );
}
