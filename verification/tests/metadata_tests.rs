use radio_core::metadata::{decimal_string, TrackMetadata};

#[test]
fn default_snapshot_is_nothing_playing() {
    let meta = TrackMetadata::default();
    assert_eq!(meta.title, "");
    assert_eq!(meta.duration, None);
    assert_eq!(meta.listeners, 0);
    assert_eq!(meta.started, 0);
    assert!(meta.artist.is_none());
    assert!(meta.albumcover.is_none());
}

#[test]
fn decimal_rendering_is_exact() {
    assert_eq!(decimal_string(0), "0");
    assert_eq!(decimal_string(7), "7");
    assert_eq!(decimal_string(10), "10");
    assert_eq!(decimal_string(42), "42");
    assert_eq!(decimal_string(99999), "99999");
    assert_eq!(decimal_string(1_234_567_890), "1234567890");
    assert_eq!(decimal_string(u64::MAX), "18446744073709551615");
}

#[test]
fn info_line_with_artist() {
    let meta = TrackMetadata {
        artist: Some(vec![String::from("Koji Kondo")]),
        listeners: 42,
        title: String::from("Song of Storms"),
        ..TrackMetadata::default()
    };
    assert_eq!(
        meta.info_line(),
        "Koji Kondo - Song of Storms with 42 listeners"
    );
}

#[test]
fn info_line_without_artist() {
    let meta = TrackMetadata {
        listeners: 1,
        title: String::from("Zelda's Lullaby"),
        ..TrackMetadata::default()
    };
    assert_eq!(meta.info_line(), "Zelda's Lullaby with 1 listeners");
}
