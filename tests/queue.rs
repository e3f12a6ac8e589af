use std::collections::VecDeque;

use bragi::error::PlaybackError;
use bragi::queue::Queue;
use bragi::track::{Track, TrackTags};

fn named(title: &str) -> Track {
    Track::from_metadata(
        format!("/music/{}.mp3", title),
        Some(TrackTags { title: Some(title.to_string()), artist: None, album: None, length: None }),
    )
}

#[test]
fn add() {
    let mut queue = Queue::new();
    queue.add(Track::default());

    assert_eq!(Track::default(), queue.next().unwrap());
}

#[test]
fn next() {
    let mut queue = Queue::new();
    queue.add(Track::default());
    queue.add(Track::default());

    assert_eq!(Track::default(), queue.next().unwrap());
    assert_eq!(Track::default(), queue.next().unwrap());
    assert_eq!(None, queue.next());
}

#[test]
fn next_empty_queue() {
    let mut queue = Queue::new();

    assert_eq!(None, queue.next());
}

#[test]
fn current() {
    let mut queue = Queue::new();
    let expected_first = 0;
    let expected_second = 1;
    queue.add(Track::default());
    queue.add(Track::default());

    queue.next();
    let first_index = queue.current();

    queue.next();
    let second_index = queue.current();

    assert_eq!(expected_first, first_index);
    assert_eq!(expected_second, second_index)
}

#[test]
fn current_empty_queue() {
    let mut queue = Queue::new();
    let expected = 0;

    let first_index = queue.current();
    queue.next();
    let secod_index = queue.current();

    assert_eq!(expected, first_index);
    assert_eq!(expected, secod_index);
}

#[test]
fn get_playlist() {
    let mut queue = Queue::new();
    let mut expected = VecDeque::new();
    queue.add(Track::default());
    queue.add(Track::default());
    expected.push_back(Track::default());
    expected.push_back(Track::default());

    let actual = queue.get_playlist();

    assert_eq!(expected, actual);
}

#[test]
fn reset() {
    let mut queue = Queue::new();
    queue.add(Track::default());
    queue.add(Track::default());

    queue.next();
    queue.next();

    queue.reset();

    assert_eq!(0, queue.current());
}

#[test]
fn change_current() {
    let mut queue = Queue::new();
    queue.add(Track::default());
    queue.add(Track::default());

    queue.change_current(1).unwrap();
    queue.next();

    assert_eq!(1, queue.current());
}

#[test]
fn change_current_invalid_index() {
    let mut queue = Queue::new();
    queue.add(Track::default());

    assert!(queue.change_current(1).is_err());
}

#[test]
fn current_track() {
    let mut queue = Queue::new();
    queue.add(Track::default());

    assert_eq!(Track::default(), queue.current_track().unwrap());
}

#[test]
fn current_track_empty_queue() {
    let queue = Queue::new();

    assert_eq!(None, queue.current_track());
}

#[test]
fn change_to_previous_test() {
    let mut queue = Queue::new();
    queue.add(Track::default());
    queue.add(Track::default());

    queue.next();
    queue.next();
    let first_index = queue.current();

    queue.change_to_previous();

    let second_index = queue.current();

    assert_eq!(1, first_index);
    assert_eq!(0, second_index);
}

#[test]
fn change_to_previous_invalid_index() {
    let mut queue = Queue::new();
    queue.add(Track::default());

    queue.next();
    queue.change_to_previous();

    let index = queue.current();

    assert_eq!(0, index);
}

#[test]
fn change_to_previous_empty_queue() {
    let mut queue = Queue::new();

    queue.change_to_previous();
    let index = queue.current();

    assert_eq!(0, index);
}

#[test]
fn current_index_follows_next_calls() {
    let mut queue = Queue::new();
    for title in ["a", "b", "c", "d"] {
        queue.add(named(title));
    }

    assert_eq!(0, queue.current());
    for n in 1..=4 {
        queue.next();
        assert_eq!(n - 1, queue.current());
    }
}

#[test]
fn exhausted_queue_keeps_its_cursor() {
    let mut queue = Queue::new();
    queue.add(named("a"));
    queue.add(named("b"));

    queue.next();
    queue.next();
    assert_eq!(None, queue.next());
    assert_eq!(None, queue.next());
    assert_eq!(2, queue.next_index());
    assert_eq!(1, queue.current());

    queue.reset();
    assert_eq!(Some(named("a")), queue.next());
}

#[test]
fn reset_from_the_middle() {
    let mut queue = Queue::new();
    queue.add(named("a"));
    queue.add(named("b"));
    queue.add(named("c"));
    queue.next();
    queue.next();

    queue.reset();

    assert_eq!(0, queue.current());
    assert_eq!(0, queue.next_index());
    assert_eq!(3, queue.len());
}

#[test]
fn failed_change_current_keeps_the_cursor() {
    let mut queue = Queue::new();
    queue.add(named("a"));
    queue.add(named("b"));
    queue.next();

    assert_eq!(Err(PlaybackError::InvalidIndex(2)), queue.change_current(2));
    assert_eq!(1, queue.next_index());
    assert_eq!(Err(PlaybackError::InvalidIndex(7)), queue.change_current(7));
    assert_eq!(1, queue.next_index());
}

#[test]
fn previous_replays_the_earlier_track() {
    let mut queue = Queue::new();
    queue.add(named("a"));
    queue.add(named("b"));
    queue.add(named("c"));
    queue.next();
    queue.next();
    queue.next();

    queue.change_to_previous();

    assert_eq!(Some(named("b")), queue.next());
    assert_eq!(1, queue.current());
}

#[test]
fn current_track_follows_the_cursor() {
    let mut queue = Queue::new();
    queue.add(named("a"));
    queue.add(named("b"));
    queue.next();
    queue.next();

    assert_eq!(Some(named("b")), queue.current_track());
    let playlist = queue.get_playlist();
    assert_eq!(vec![named("a"), named("b")], playlist.into_iter().collect::<Vec<_>>());
}
