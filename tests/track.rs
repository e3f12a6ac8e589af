use bragi::track::{Track, TrackTags};

#[test]
fn metadata_tags_fill_the_track() {
    let tags = TrackTags {
        title: Some("title".to_string()),
        artist: Some("artist".to_string()),
        album: Some("album".to_string()),
        length: Some(4_000_000_000),
    };

    let track = Track::from_metadata("/tmp/dir/track.mp3".to_string(), Some(tags));

    assert_eq!("title", track.title());
    assert_eq!(&Some("artist".to_string()), track.artist());
    assert_eq!(&Some("album".to_string()), track.album());
    assert_eq!("/tmp/dir/track.mp3", track.path());
    assert_eq!(Some(4_000_000_000), track.length());
}

#[test]
fn empty_tags_take_the_title_from_the_file_stem() {
    let tags = TrackTags { title: None, artist: None, album: None, length: Some(0) };

    let track = Track::from_metadata("/tmp/dir/track.mp3".to_string(), Some(tags));

    assert_eq!("track", track.title());
    assert_eq!(&None, track.artist());
    assert_eq!(&None, track.album());
    assert_eq!(Some(0), track.length());
}

#[test]
fn unreadable_tags_leave_only_the_title() {
    let track = Track::from_metadata("/tmp/dir/track.flac".to_string(), None);

    assert_eq!("track", track.title());
    assert_eq!(&None, track.artist());
    assert_eq!(&None, track.album());
    assert_eq!("/tmp/dir/track.flac", track.path());
    assert_eq!(None, track.length());
}

#[test]
fn stem_drops_only_the_last_extension() {
    let track = Track::from_metadata("/music/live.set.flac".to_string(), None);

    assert_eq!("live.set", track.title());
}

#[test]
fn tracks_compare_by_every_field() {
    let a = Track::from_metadata("/music/a.mp3".to_string(), None);
    let b = Track::from_metadata("/music/a.mp3".to_string(), None);
    let c = Track::from_metadata("/other/a.mp3".to_string(), None);

    assert_eq!(a, b);
    assert_ne!(a, c);
    assert_eq!(a, a.clone());
    assert_ne!(Track::default(), a);
}
