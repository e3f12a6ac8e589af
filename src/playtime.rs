use vstd::prelude::*;
use std::time::Instant;

verus! {

#[verifier::external_type_specification]
#[verifier::external_body]
pub struct ExInstant(std::time::Instant);

/// Relies on std's `Instant::now`: a reading of the monotonic clock. Nothing
/// is assumed of its value.
pub assume_specification[ std::time::Instant::now ]() -> std::time::Instant;

/// Relies on std's `Instant::elapsed`, read as whole nanoseconds: the time that
/// has passed since `origin`. Nothing is assumed of the value.
#[verifier::external_body]
fn nanos_since(origin: &Instant) -> (r: u128) {
    origin.elapsed().as_nanos()
}

/// Mathematical model of the tracker. Instants are nanoseconds on the
/// tracker's own clock: when playing first started, when the current pause
/// began (only while paused), and how long all earlier pauses lasted.
pub struct PlaytimeState {
    pub start: Option<int>,
    pub paused_at: Option<int>,
    pub paused_for: nat,
}

pub open spec fn clamp_u64(x: int) -> int {
    if x < 0 {
        0
    } else if x > u64::MAX {
        u64::MAX as int
    } else {
        x
    }
}

impl PlaytimeState {
    pub open spec fn fresh() -> PlaytimeState {
        PlaytimeState { start: None, paused_at: None, paused_for: 0 }
    }

    /// Play time at instant `now`: the time since the start less all time
    /// spent paused, counting the current pause up to `now`; 0 if never started.
    pub open spec fn elapsed(self, now: int) -> int {
        match self.start {
            None => 0,
            Some(start) => {
                let until = match self.paused_at {
                    Some(p) => p,
                    None => now,
                };
                clamp_u64(until - start - self.paused_for)
            },
        }
    }

    /// The tracker after `play` at instant `now`: started if it was not, and
    /// a running pause folded into the paused total.
    pub open spec fn played(self, now: int) -> PlaytimeState {
        PlaytimeState {
            start: match self.start {
                Some(s) => Some(s),
                None => Some(now),
            },
            paused_at: None,
            paused_for: match self.paused_at {
                Some(p) => if now > p {
                    clamp_u64(self.paused_for + (now - p)) as nat
                } else {
                    self.paused_for
                },
                None => self.paused_for,
            },
        }
    }

    /// The tracker after `pause` at instant `now`: a pause begins, unless the
    /// tracker is not started or already paused.
    pub open spec fn paused(self, now: int) -> PlaytimeState {
        if self.start is Some && self.paused_at is None {
            PlaytimeState { paused_at: Some(now), ..self }
        } else {
            self
        }
    }

    /// The tracker after `change` to `time` at instant `now`: it plays and
    /// reports `time` at `now`.
    pub open spec fn changed(self, now: int, time: int) -> PlaytimeState {
        PlaytimeState { start: Some(now - time), paused_at: None, paused_for: 0 }
    }
}

/// A pause-aware stopwatch for the track that is playing. Times are in
/// nanoseconds.
pub struct Playtime {
    origin: Instant,
    start_time: Option<i128>,
    pause_time: Option<u64>,
    pause_duration: u64,
}

impl View for Playtime {
    type V = PlaytimeState;

    closed spec fn view(&self) -> PlaytimeState {
        PlaytimeState {
            start: match self.start_time {
                Some(s) => Some(s as int),
                None => None,
            },
            paused_at: match self.pause_time {
                Some(p) => Some(p as int),
                None => None,
            },
            paused_for: self.pause_duration as nat,
        }
    }
}

impl Playtime {
    #[verifier::type_invariant]
    spec fn inv(self) -> bool {
        &&& self.pause_time is Some ==> self.start_time is Some
        &&& match self.start_time {
            Some(s) => -(u64::MAX as int) <= s <= u64::MAX,
            None => true,
        }
    }

    /// The tracker's clock, in nanoseconds since the tracker was made.
    fn now(&self) -> (r: u64) {
        let n = nanos_since(&self.origin);
        if n > u64::MAX as u128 {
            u64::MAX
        } else {
            n as u64
        }
    }

    /// Begins a pause at instant `now`; does nothing if the tracker is not
    /// started or already paused.
    pub fn pause_at(&mut self, now: u64)
        ensures
            final(self)@ == old(self)@.paused(now as int),
    {
        proof {
            use_type_invariant(&*self);
        }
        if self.start_time.is_some() && self.pause_time.is_none() {
            self.pause_time = Some(now);
        }
    }

    /// Starts or resumes the tracker at instant `now`.
    pub fn play_at(&mut self, now: u64)
        ensures
            final(self)@ == old(self)@.played(now as int),
    {
        proof {
            use_type_invariant(&*self);
        }
        if self.start_time.is_none() {
            self.start_time = Some(now as i128);
        }
        if let Some(p) = self.pause_time {
            if now > p {
                self.pause_duration = self.pause_duration.saturating_add(now - p);
            }
            self.pause_time = None;
        }
    }

    /// The play time at instant `now`.
    pub fn time_at(&self, now: u64) -> (r: u64)
        ensures
            r == self@.elapsed(now as int),
    {
        proof {
            use_type_invariant(self);
        }
        match self.start_time {
            None => 0,
            Some(start) => {
                let until: i128 = match self.pause_time {
                    Some(p) => p as i128,
                    None => now as i128,
                };
                let e: i128 = until - start - self.pause_duration as i128;
                if e < 0 {
                    0
                } else if e > u64::MAX as i128 {
                    u64::MAX
                } else {
                    e as u64
                }
            },
        }
    }

    /// Re-anchors the tracker at instant `now` so that it reports `time` then,
    /// and plays on from there.
    pub fn change_at(&mut self, now: u64, time: u64)
        ensures
            final(self)@ == old(self)@.changed(now as int, time as int),
    {
        proof {
            use_type_invariant(&*self);
        }
        self.pause_time = None;
        self.pause_duration = 0;
        self.start_time = Some(now as i128 - time as i128);
    }

    /// Begins a pause now; does nothing if the tracker is not started or
    /// already paused.
    pub fn pause(&mut self)
        ensures
            exists|now: int| 0 <= now <= u64::MAX && final(self)@ == old(self)@.paused(now),
    {
        let now = self.now();
        self.pause_at(now);
    }

    /// Starts or resumes the tracker now.
    pub fn play(&mut self)
        ensures
            exists|now: int| 0 <= now <= u64::MAX && final(self)@ == old(self)@.played(now),
    {
        let now = self.now();
        self.play_at(now);
    }

    /// The play time now.
    pub fn time(&self) -> (r: u64)
        ensures
            exists|now: int| 0 <= now <= u64::MAX && r == self@.elapsed(now),
    {
        let now = self.now();
        self.time_at(now)
    }

    /// Re-anchors the tracker so that it reports `time` now and plays on from there.
    pub fn change(&mut self, time: u64)
        ensures
            exists|now: int|
                0 <= now <= u64::MAX && final(self)@ == old(self)@.changed(now, time as int),
    {
        let now = self.now();
        self.change_at(now, time);
    }
}

impl Default for Playtime {
    fn default() -> (r: Self)
        ensures
            r@ == PlaytimeState::fresh(),
    {
        Playtime { origin: Instant::now(), start_time: None, pause_time: None, pause_duration: 0 }
    }
}

/// A tracker that was never played reports zero at every instant, and pausing
/// it leaves it so.
pub proof fn lemma_fresh_reports_zero(now: int, when: int)
    ensures
        PlaytimeState::fresh().elapsed(now) == 0,
        PlaytimeState::fresh().paused(when) == PlaytimeState::fresh(),
{
}

/// After `play` and then `pause`, the tracker reports the same time at every
/// later instant.
pub proof fn lemma_paused_time_stands_still(p: PlaytimeState, played: int, paused: int, n1: int, n2: int)
    ensures
        p.played(played).paused(paused).elapsed(n1) == p.played(played).paused(paused).elapsed(n2),
{
}

/// After `change` to `time` at instant `changed_at`, and nothing since, the
/// tracker reports `time` at that instant and `time` plus the time gone by
/// at every later instant (as far as a `u64` of nanoseconds reaches).
pub proof fn lemma_change_reports_time(p: PlaytimeState, changed_at: int, time: int, now: int)
    requires
        0 <= time <= u64::MAX,
    ensures
        p.changed(changed_at, time).elapsed(changed_at) == time,
        changed_at <= now && time + (now - changed_at) <= u64::MAX ==> p.changed(
            changed_at,
            time,
        ).elapsed(now) == time + (now - changed_at),
{
}

} // verus!
