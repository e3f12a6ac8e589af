use vstd::prelude::*;
use std::collections::VecDeque;

use crate::error::PlaybackError;
use crate::playtime::{Playtime, PlaytimeState};
use crate::queue::{Queue, QueueState};
use crate::track::{track_from_metadata, Track, TrackTags};

verus! {

/// Notifications for the one subscriber of the engine.
#[derive(Clone, Copy, Debug, PartialEq, Eq, Structural)]
pub enum Event {
    /// A track started playing; carries its index in the queue.
    TrackChanged(usize),
    /// The traversal of the queue ended or was halted.
    PlaybackStopped,
    /// The volume was stepped up or down.
    VolumeUpdated,
}

/// The volume at which the sink plays the audio as it is, in percent of the
/// sink's gain; larger volumes amplify.
pub const UNIT_VOLUME: u32 = 100;

/// Mathematical model of the engine.
pub struct PlayerState {
    pub queue: QueueState,
    pub playtime: PlaytimeState,
    pub is_playing: bool,
    pub volume: int,
    pub events: Seq<Event>,
}

/// A volume level made valid: negative levels become 0, and levels beyond
/// what a `u32` holds stop there.
pub open spec fn clamp_volume(level: int) -> int {
    if level < 0 {
        0
    } else if level > u32::MAX {
        u32::MAX as int
    } else {
        level
    }
}

impl PlayerState {
    /// The engine after `stop`: play time cleared, not playing, cursor back
    /// at the first track, and `PlaybackStopped` sent.
    pub open spec fn stopped(self) -> PlayerState {
        PlayerState {
            queue: QueueState { tracks: self.queue.tracks, cursor: 0 },
            playtime: PlaytimeState::fresh(),
            is_playing: false,
            events: self.events.push(Event::PlaybackStopped),
            ..self
        }
    }

    /// The engine after the track in the sink was cut short: play time cleared.
    pub open spec fn skipped(self) -> PlayerState {
        PlayerState { playtime: PlaytimeState::fresh(), ..self }
    }

    /// The track whose album cover is asked for: the one handed out last,
    /// provided the queue has handed one out.
    pub open spec fn cover_track(self) -> Result<Track, PlaybackError> {
        if self.queue.cursor > 0 && self.queue.current_track() is Some {
            Ok(self.queue.current_track().unwrap())
        } else {
            Err(PlaybackError::NoCurrentTrack)
        }
    }
}

/// The playback engine: the queue, the play time, the playing flag and the
/// volume, with the events sent so far and not yet taken. The caller owns the
/// audio sink and does to it what each command's documentation says.
pub struct Player {
    queue: Queue,
    playtime: Playtime,
    is_playing: bool,
    volume: u32,
    events: Vec<Event>,
}

impl View for Player {
    type V = PlayerState;

    closed spec fn view(&self) -> PlayerState {
        PlayerState {
            queue: self.queue@,
            playtime: self.playtime@,
            is_playing: self.is_playing,
            volume: self.volume as int,
            events: self.events@,
        }
    }
}

impl Player {
    /// An idle engine: empty queue, fresh play time, unit volume.
    pub fn new() -> (r: Player)
        ensures
            r@.queue.tracks == Seq::<Track>::empty(),
            r@.queue.cursor == 0,
            r@.playtime == PlaytimeState::fresh(),
            !r@.is_playing,
            r@.volume == UNIT_VOLUME,
            r@.events == Seq::<Event>::empty(),
    {
        Player {
            queue: Queue::new(),
            playtime: Playtime::default(),
            is_playing: false,
            volume: UNIT_VOLUME,
            events: Vec::new(),
        }
    }

    /// Adds the file at `path` to the queue, given what reading it gave: an
    /// I/O failure, or the tags found (`None` where they could not be read).
    /// A failure is returned and leaves the engine unchanged.
    pub fn open(&mut self, path: String, metadata: Result<Option<TrackTags>, String>) -> (r: Result<
        (),
        PlaybackError,
    >)
        ensures
            match metadata {
                Ok(tags) => {
                    &&& r is Ok
                    &&& final(self)@.queue.tracks.len() == old(self)@.queue.tracks.len() + 1
                    &&& final(self)@.queue.tracks.drop_last() == old(self)@.queue.tracks
                    &&& final(self)@.queue.tracks.last()@ == track_from_metadata(path@, tags)
                    &&& final(self)@ == (PlayerState { queue: final(self)@.queue, ..old(self)@ })
                    &&& final(self)@.queue.cursor == old(self)@.queue.cursor
                },
                Err(msg) => {
                    &&& r == Err::<(), PlaybackError>(PlaybackError::Io(msg))
                    &&& final(self)@ == old(self)@
                },
            },
    {
        match metadata {
            Ok(tags) => {
                let track = Track::from_metadata(path, tags);
                self.queue.add(track);
                assert(self@.queue.tracks.drop_last() =~= old(self)@.queue.tracks);
                Ok(())
            },
            Err(msg) => Err(PlaybackError::Io(msg)),
        }
    }

    /// Begins a traversal of the queue: the engine is playing from now on.
    /// Then `advance_queue`, `start_track` and `next` drive each track.
    pub fn begin_queue(&mut self)
        ensures
            final(self)@ == (PlayerState { is_playing: true, ..old(self)@ }),
    {
        self.is_playing = true;
    }

    /// The next track of the traversal, to be decoded and handed to the sink.
    /// Where the engine was stopped meanwhile, or the queue is exhausted, the
    /// traversal ends: the engine stops (see `stop`) and returns `None`.
    pub fn advance_queue(&mut self) -> (r: Option<Track>)
        ensures
            old(self)@.is_playing && old(self)@.queue.next_item() is Some ==> r
                == old(self)@.queue.next_item() && final(self)@ == (PlayerState {
                queue: old(self)@.queue.after_next(),
                ..old(self)@
            }),
            !(old(self)@.is_playing && old(self)@.queue.next_item() is Some) ==> r is None
                && final(self)@ == old(self)@.stopped(),
    {
        if !self.is_playing {
            self.stop();
            return None;
        }
        match self.queue.next() {
            Some(track) => Some(track),
            None => {
                self.stop();
                None
            },
        }
    }

    /// Starts the track that the sink was just given: announces its index and
    /// starts the play time. The caller then resumes the sink and waits for
    /// it to drain.
    pub fn start_track(&mut self)
        ensures
            exists|now: int|
                0 <= now <= u64::MAX && final(self)@ == (PlayerState {
                    playtime: #[trigger] old(self)@.playtime.played(now),
                    events: old(self)@.events.push(
                        Event::TrackChanged(old(self)@.queue.current_index() as usize),
                    ),
                    ..old(self)@
                }),
    {
        let index = self.queue.current();
        self.events.push(Event::TrackChanged(index));
        self.play();
    }

    /// Resumes the play time; the caller resumes the sink.
    pub fn play(&mut self)
        ensures
            exists|now: int|
                0 <= now <= u64::MAX && final(self)@ == (PlayerState {
                    playtime: #[trigger] old(self)@.playtime.played(now),
                    ..old(self)@
                }),
    {
        self.playtime.play();
    }

    /// Pauses the play time; the caller pauses the sink.
    pub fn pause(&mut self)
        ensures
            exists|now: int|
                0 <= now <= u64::MAX && final(self)@ == (PlayerState {
                    playtime: #[trigger] old(self)@.playtime.paused(now),
                    ..old(self)@
                }),
    {
        self.playtime.pause();
    }

    /// Halts the traversal: clears the play time, stops playing, moves the
    /// cursor back to the first track and sends `PlaybackStopped`. The caller
    /// stops the sink.
    pub fn stop(&mut self)
        ensures
            final(self)@ == old(self)@.stopped(),
    {
        self.playtime = Playtime::default();
        self.is_playing = false;
        self.queue.reset();
        self.events.push(Event::PlaybackStopped);
    }

    /// Skips to the next track: clears the play time. The caller stops the
    /// sink, which lets the traversal move on.
    pub fn next(&mut self)
        ensures
            final(self)@ == old(self)@.skipped(),
    {
        self.playtime = Playtime::default();
    }

    /// Goes back to the track before the current one: clears the play time
    /// and moves the cursor back by two. The caller stops the sink.
    pub fn previous(&mut self)
        ensures
            final(self)@ == (PlayerState {
                queue: old(self)@.queue.after_previous(),
                ..old(self)@.skipped()
            }),
    {
        self.playtime = Playtime::default();
        self.queue.change_to_previous();
    }

    /// Jumps to the track at `index`: moves the cursor there and skips as
    /// `next` does; the caller then stops the sink. An index past the end
    /// fails and leaves the engine unchanged.
    pub fn change_track(&mut self, index: usize) -> (r: Result<(), PlaybackError>)
        ensures
            index < old(self)@.queue.tracks.len() ==> r == Ok::<(), PlaybackError>(())
                && final(self)@ == (PlayerState {
                queue: QueueState { tracks: old(self)@.queue.tracks, cursor: index as nat },
                ..old(self)@.skipped()
            }),
            index >= old(self)@.queue.tracks.len() ==> r == Err::<(), PlaybackError>(
                PlaybackError::InvalidIndex(index),
            ) && final(self)@ == old(self)@,
    {
        match self.queue.change_current(index) {
            Ok(()) => {
                self.next();
                Ok(())
            },
            Err(e) => Err(e),
        }
    }

    /// Records a seek to `position` (nanoseconds), given what the sink made of
    /// it: where it succeeded the play time reports `position` from now on;
    /// where it failed, its message is returned and the engine is unchanged.
    pub fn seek(&mut self, position: u64, sink_outcome: Result<(), String>) -> (r: Result<
        (),
        PlaybackError,
    >)
        ensures
            match sink_outcome {
                Ok(()) => r is Ok && exists|now: int|
                    0 <= now <= u64::MAX && final(self)@ == (PlayerState {
                        playtime: #[trigger] old(self)@.playtime.changed(now, position as int),
                        ..old(self)@
                    }),
                Err(msg) => {
                    &&& r == Err::<(), PlaybackError>(PlaybackError::Seek(msg))
                    &&& final(self)@ == old(self)@
                },
            },
    {
        match sink_outcome {
            Ok(()) => {
                self.playtime.change(position);
                Ok(())
            },
            Err(msg) => Err(PlaybackError::Seek(msg)),
        }
    }

    /// The play time of the current track now, in nanoseconds.
    pub fn playtime(&self) -> (r: u64)
        ensures
            exists|now: int| 0 <= now <= u64::MAX && r == self@.playtime.elapsed(now),
    {
        self.playtime.time()
    }

    pub fn is_playing(&self) -> (r: bool)
        ensures
            r == self@.is_playing,
    {
        self.is_playing
    }

    /// A copy of the queue's tracks, in play order.
    pub fn get_playlist(&self) -> (r: VecDeque<Track>)
        ensures
            r@ == self@.queue.tracks,
    {
        self.queue.get_playlist()
    }

    /// Sets the volume to `level` percent, or to 0 where `level` is negative.
    /// The caller sets the sink's gain to `volume()` percent.
    pub fn set_volume(&mut self, level: i32)
        ensures
            final(self)@ == (PlayerState { volume: clamp_volume(level as int), ..old(self)@ }),
    {
        self.volume = if level < 0 {
            0
        } else {
            level as u32
        };
    }

    /// Steps the volume by `delta` percent, stopping at 0 (and at `u32::MAX`),
    /// and sends `VolumeUpdated`. The caller sets the sink's gain to `volume()`
    /// percent.
    pub fn adjust_volume(&mut self, delta: i32)
        ensures
            final(self)@ == (PlayerState {
                volume: clamp_volume(old(self)@.volume + delta),
                events: old(self)@.events.push(Event::VolumeUpdated),
                ..old(self)@
            }),
    {
        let level: i64 = self.volume as i64 + delta as i64;
        self.volume = if level < 0 {
            0
        } else if level > u32::MAX as i64 {
            u32::MAX
        } else {
            level as u32
        };
        self.events.push(Event::VolumeUpdated);
    }

    /// The volume, in percent of the sink's gain.
    pub fn volume(&self) -> (r: u32)
        ensures
            r == self@.volume,
    {
        self.volume
    }

    /// The track whose album cover is to be shown: the current one, if the
    /// queue has handed one out.
    pub fn cover_track(&self) -> (r: Result<Track, PlaybackError>)
        ensures
            r == self@.cover_track(),
    {
        if self.queue.next_index() == 0 {
            return Err(PlaybackError::NoCurrentTrack);
        }
        match self.queue.current_track() {
            Some(track) => Ok(track),
            None => Err(PlaybackError::NoCurrentTrack),
        }
    }

    /// Hands over the events sent since the last call, oldest first.
    pub fn take_events(&mut self) -> (r: Vec<Event>)
        ensures
            r@ == old(self)@.events,
            final(self)@ == (PlayerState { events: Seq::<Event>::empty(), ..old(self)@ }),
    {
        let mut taken: Vec<Event> = Vec::new();
        std::mem::swap(&mut taken, &mut self.events);
        taken
    }
}

} // verus!
