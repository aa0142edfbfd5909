use radio_core::clock::{clock_offset_from_header, offset_seconds};
use radio_core::errors::RadioError;

#[test]
fn absent_date_header_yields_zero_offset() {
    assert_eq!(clock_offset_from_header(None, 1_445_412_480_000), Ok(0));
    assert_eq!(clock_offset_from_header(None, 0), Ok(0));
    assert_eq!(clock_offset_from_header(None, -5_000), Ok(0));
}

#[test]
fn rfc2822_header_yields_local_minus_server() {
    // Wed, 21 Oct 2015 07:28:00 GMT is epoch second 1445412480.
    let header = Some("Wed, 21 Oct 2015 07:28:00 GMT");
    let offset = clock_offset_from_header(header, 1_445_412_485_000);
    assert_eq!(offset, Ok(5));
}

#[test]
fn rfc2822_header_negative_skew_truncates_toward_zero() {
    let header = Some("Wed, 21 Oct 2015 07:28:00 GMT");
    let offset = clock_offset_from_header(header, 1_445_412_470_500);
    assert_eq!(offset, Ok(-9));
}

#[test]
fn malformed_date_header_is_an_error() {
    let r = clock_offset_from_header(Some("not a date"), 1_445_412_480_000);
    assert_eq!(r, Err(RadioError::MalformedClockHeader));
    assert_eq!(
        RadioError::MalformedClockHeader.message(),
        "malformed clock header"
    );
}

#[test]
fn offset_is_whole_seconds_of_the_difference() {
    assert_eq!(offset_seconds(10_000, 4_000), 6);
    assert_eq!(offset_seconds(10_500, 4_000), 6);
    assert_eq!(offset_seconds(4_000, 10_000), -6);
    assert_eq!(offset_seconds(0, 0), 0);
    assert_eq!(offset_seconds(i64::MAX, i64::MIN), (u64::MAX / 1000) as i64);
}

#[test]
fn offset_applied_to_progress_restores_server_time() {
    // Local clock runs 10 s ahead of the server.
    let offset = offset_seconds(5_000_000, 4_990_000);
    assert_eq!(offset, 10);
    // A track started at server second 1000; at server second 1090 the
    // local clock reads 1100, and correcting by the offset recovers the
    // purely server-relative elapsed time of 90 s.
    let meta = track("A", 1000, Some(180));
    let f = radio_core::progress::elapsed_fraction(&meta, offset, 1100).unwrap();
    assert_eq!(f.elapsed, 90);
    assert_eq!(f.duration, 180);
}

fn track(title: &str, started: i64, duration: Option<u64>) -> radio_core::metadata::TrackMetadata {
    radio_core::metadata::TrackMetadata {
        album: None,
        album_url: None,
        albumcover: None,
        artist: None,
        artist_url: None,
        duration,
        listeners: 0,
        song_nid: None,
        song_url: None,
        source: None,
        started,
        title: String::from(title),
    }
}
