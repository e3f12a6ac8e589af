use vstd::prelude::*;
use std::collections::VecDeque;

use crate::error::PlaybackError;
use crate::track::Track;

verus! {

/// Mathematical model of a queue: the tracks in play order, and the cursor,
/// which points at the track that the next call of `next` hands out.
pub struct QueueState {
    pub tracks: Seq<Track>,
    pub cursor: nat,
}

impl QueueState {
    pub open spec fn well_formed(self) -> bool {
        self.cursor <= self.tracks.len()
    }

    /// The index of the track that `next` handed out last, or 0 before the first.
    pub open spec fn current_index(self) -> nat {
        if self.cursor == 0 {
            0
        } else {
            (self.cursor - 1) as nat
        }
    }

    /// What `next` returns: the track under the cursor, if any.
    pub open spec fn next_item(self) -> Option<Track> {
        if self.cursor < self.tracks.len() {
            Some(self.tracks[self.cursor as int])
        } else {
            None
        }
    }

    /// The queue after `next`: the cursor moves on by one, never past the end.
    pub open spec fn after_next(self) -> QueueState {
        if self.cursor < self.tracks.len() {
            QueueState { tracks: self.tracks, cursor: self.cursor + 1 }
        } else {
            self
        }
    }

    /// The queue after one operation of a log.
    pub open spec fn step(self, op: QueueOp) -> QueueState {
        match op {
            QueueOp::Add(track) => QueueState { tracks: self.tracks.push(track), cursor: self.cursor },
            QueueOp::Next => self.after_next(),
        }
    }

    /// The queue after the operations of `ops`, oldest first.
    pub open spec fn run(self, ops: Seq<QueueOp>) -> QueueState
        decreases ops.len(),
    {
        if ops.len() == 0 {
            self
        } else {
            self.run(ops.drop_last()).step(ops.last())
        }
    }

    /// Whether every `next` in `ops`, run from this queue, handed out a track.
    pub open spec fn nexts_served(self, ops: Seq<QueueOp>) -> bool
        decreases ops.len(),
    {
        if ops.len() == 0 {
            true
        } else {
            &&& self.nexts_served(ops.drop_last())
            &&& ops.last() is Next ==> self.run(ops.drop_last()).next_item() is Some
        }
    }

    /// The queue after `change_to_previous`: the cursor goes back by two, down to 0.
    pub open spec fn after_previous(self) -> QueueState {
        QueueState {
            tracks: self.tracks,
            cursor: if self.cursor >= 2 {
                (self.cursor - 2) as nat
            } else {
                0
            },
        }
    }

    /// The track at the current index, if the queue has one there.
    pub open spec fn current_track(self) -> Option<Track> {
        if self.current_index() < self.tracks.len() {
            Some(self.tracks[self.current_index() as int])
        } else {
            None
        }
    }
}

/// One operation in a log of calls on a queue: `add` of a track, or `next`.
pub enum QueueOp {
    Add(Track),
    Next,
}

/// The number of `next` calls in a log.
pub open spec fn count_nexts(ops: Seq<QueueOp>) -> nat
    decreases ops.len(),
{
    if ops.len() == 0 {
        0
    } else {
        count_nexts(ops.drop_last()) + if ops.last() is Next {
            1nat
        } else {
            0nat
        }
    }
}

/// The ordered list of tracks to play, with a cursor one ahead of the track
/// that was handed out last.
pub struct Queue {
    tracks: VecDeque<Track>,
    current: usize,
}

impl View for Queue {
    type V = QueueState;

    closed spec fn view(&self) -> QueueState {
        QueueState { tracks: self.tracks@, cursor: self.current as nat }
    }
}

impl Queue {
    pub fn new() -> (r: Queue)
        ensures
            r@.well_formed(),
            r@.tracks == Seq::<Track>::empty(),
            r@.cursor == 0,
    {
        Queue { tracks: VecDeque::new(), current: 0 }
    }

    /// Appends `track` at the end; the cursor stays where it is.
    pub fn add(&mut self, track: Track)
        ensures
            final(self)@.tracks == old(self)@.tracks.push(track),
            final(self)@.cursor == old(self)@.cursor,
            final(self)@ == old(self)@.step(QueueOp::Add(track)),
    {
        self.tracks.push_back(track);
    }

    /// Hands out the track under the cursor and moves the cursor on; on an
    /// exhausted queue returns `None` and leaves the cursor where it is.
    pub fn next(&mut self) -> (r: Option<Track>)
        ensures
            r == old(self)@.next_item(),
            final(self)@ == old(self)@.after_next(),
            final(self)@ == old(self)@.step(QueueOp::Next),
            old(self)@.well_formed() ==> final(self)@.well_formed(),
    {
        if self.current < self.tracks.len() {
            let track = self.tracks[self.current].clone();
            self.current = self.current + 1;
            Some(track)
        } else {
            None
        }
    }

    /// The index of the track handed out last, or 0 before the first `next`.
    pub fn current(&self) -> (r: usize)
        ensures
            r == self@.current_index(),
    {
        if self.current == 0 {
            0
        } else {
            self.current - 1
        }
    }

    /// The position of the cursor: how far `next` has gone into the queue.
    pub fn next_index(&self) -> (r: usize)
        ensures
            r == self@.cursor,
    {
        self.current
    }

    /// The number of tracks in the queue.
    pub fn len(&self) -> (r: usize)
        ensures
            r == self@.tracks.len(),
    {
        self.tracks.len()
    }

    /// Moves the cursor to `index`, so that the next `next` hands out that
    /// track; fails and leaves the queue unchanged where `index` is past the end.
    pub fn change_current(&mut self, index: usize) -> (r: Result<(), PlaybackError>)
        ensures
            index < old(self)@.tracks.len() ==> r == Ok::<(), PlaybackError>(())
                && final(self)@ == (QueueState { tracks: old(self)@.tracks, cursor: index as nat }),
            index >= old(self)@.tracks.len() ==> r == Err::<(), PlaybackError>(
                PlaybackError::InvalidIndex(index),
            ) && final(self)@ == old(self)@,
    {
        if index >= self.tracks.len() {
            return Err(PlaybackError::InvalidIndex(index));
        }
        self.current = index;
        Ok(())
    }

    /// Moves the cursor back by two, down to 0, so that the next `next` hands
    /// out again the track before the one handed out last.
    pub fn change_to_previous(&mut self)
        ensures
            final(self)@ == old(self)@.after_previous(),
    {
        self.current = self.current.saturating_sub(2);
    }

    /// The track at the current index.
    pub fn current_track(&self) -> (r: Option<Track>)
        ensures
            r == self@.current_track(),
    {
        let index = self.current();
        if index < self.tracks.len() {
            Some(self.tracks[index].clone())
        } else {
            None
        }
    }

    /// A copy of all tracks, in play order.
    pub fn get_playlist(&self) -> (r: VecDeque<Track>)
        ensures
            r@ == self@.tracks,
    {
        let r = self.tracks.clone();
        assert(r@ =~= self.tracks@);
        r
    }

    /// Moves the cursor back to the first track; the tracks stay.
    pub fn reset(&mut self)
        ensures
            final(self)@.tracks == old(self)@.tracks,
            final(self)@.cursor == 0,
            final(self)@.current_index() == 0,
    {
        self.current = 0;
    }
}

/// On a queue that has handed out nothing yet, after any interleaving of
/// `add` calls and `n` calls of `next` that each handed out a track, the
/// current index is `n - 1` (0 for `n == 0`).
pub proof fn lemma_current_index_after_next_calls(q: QueueState, ops: Seq<QueueOp>)
    requires
        q.cursor == 0,
        q.nexts_served(ops),
    ensures
        q.run(ops).cursor == count_nexts(ops),
        q.run(ops).current_index() == if count_nexts(ops) == 0 {
            0
        } else {
            (count_nexts(ops) - 1) as nat
        },
    decreases ops.len(),
{
    if ops.len() > 0 {
        lemma_current_index_after_next_calls(q, ops.drop_last());
    }
}

/// `next` never moves the cursor past the end, and on an exhausted queue it
/// returns nothing and changes nothing.
pub proof fn lemma_next_stays_in_bounds(q: QueueState)
    requires
        q.well_formed(),
    ensures
        q.after_next().well_formed(),
        q.cursor == q.tracks.len() ==> q.next_item() is None && q.after_next() == q,
{
}

/// From a queue that has handed out nothing yet, `change_to_previous` after
/// two calls of `next` brings the current index back to what it was between
/// the two calls; on a queue that has moved at most once it stops at 0.
pub proof fn lemma_previous_after_two_next(q: QueueState)
    requires
        q.well_formed(),
    ensures
        q.cursor == 0 ==> q.after_next().after_next().after_previous().current_index()
            == q.after_next().current_index(),
        q.cursor <= 1 ==> q.after_previous().cursor == 0 && q.after_previous().current_index()
            == 0,
{
}

/// Wherever two calls of `next` both hand out a track, `change_to_previous`
/// brings the queue back to where it was before them, so that the following
/// `next` hands out the first of the two again.
pub proof fn lemma_previous_replays(q: QueueState)
    requires
        q.cursor + 2 <= q.tracks.len(),
    ensures
        q.after_next().after_next().after_previous() == q,
        q.after_next().after_next().after_previous().next_item() == q.next_item(),
        q.after_next().after_next().after_previous().after_next().current_index()
            == q.after_next().current_index(),
{
}

} // verus!
