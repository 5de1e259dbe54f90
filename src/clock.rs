use vstd::prelude::*;

verus! {

/// Milliseconds the sync offset moves by on one step up or down.
pub const OFFSET_STEP: i64 = 100;

/// The playback transport. Times are milliseconds; `anchor` is the wall-clock
/// reading (in the caller's milliseconds) at which the clock last started
/// running from `base_position`.
#[derive(Debug, Clone, Copy, PartialEq, Eq, Structural)]
pub struct PlaybackClock {
    pub base_position: u64,
    pub anchor: u64,
    pub paused: bool,
    pub sync_offset: u64,
    pub duration: u64,
}

impl PlaybackClock {
    /// The song has a positive length and the stored position lies within it.
    pub open spec fn well_formed(self) -> bool {
        0 < self.duration && self.base_position <= self.duration
    }

    /// Playback position at wall-clock reading `now`: the stored position while
    /// paused, else the stored position plus the time since the anchor, held
    /// at the song's end.
    pub open spec fn position_at(self, now: int) -> int {
        if self.paused {
            self.base_position as int
        } else {
            let since = if now >= self.anchor { now - self.anchor } else { 0 };
            if self.base_position + since <= self.duration {
                self.base_position + since
            } else {
                self.duration as int
            }
        }
    }

    pub open spec fn ended_at(self, now: int) -> bool {
        self.position_at(now) >= self.duration
    }

    /// The clock after a pause toggle at `now`: unchanged once the song has
    /// ended; pausing keeps the position reached, resuming restarts the anchor.
    pub open spec fn toggled(self, now: int) -> PlaybackClock {
        if self.ended_at(now) {
            self
        } else if self.paused {
            PlaybackClock { paused: false, anchor: now as u64, ..self }
        } else {
            PlaybackClock { paused: true, base_position: self.position_at(now) as u64, ..self }
        }
    }

    /// The clock after a restart at `now`: from the beginning, running.
    pub open spec fn restarted(self, now: int) -> PlaybackClock {
        PlaybackClock { base_position: 0, anchor: now as u64, paused: false, ..self }
    }

    /// The offset after adding `delta`, held at zero from below and at the
    /// largest `u64` from above.
    pub open spec fn shifted_offset(self, delta: int) -> u64 {
        let v = self.sync_offset + delta;
        if v < 0 {
            0
        } else if v > u64::MAX {
            u64::MAX
        } else {
            v as u64
        }
    }

    /// The clock after the end-of-song check at `now`: a running clock that
    /// has reached the end is paused at exactly the song's length.
    pub open spec fn settled(self, now: int) -> PlaybackClock {
        if self.ended_at(now) && !self.paused {
            PlaybackClock { paused: true, base_position: self.duration, ..self }
        } else {
            self
        }
    }

    /// A running clock at `start_position` of a song of `duration`, anchored
    /// at `now`, with no sync offset.
    pub fn new(duration: u64, start_position: u64, now: u64) -> (r: PlaybackClock)
        requires
            0 < duration,
            start_position <= duration,
        ensures
            r == (PlaybackClock {
                base_position: start_position,
                anchor: now,
                paused: false,
                sync_offset: 0,
                duration,
            }),
            r.well_formed(),
    {
        PlaybackClock { base_position: start_position, anchor: now, paused: false, sync_offset: 0, duration }
    }

    /// The playback position at wall-clock reading `now`, within `[0, duration]`.
    pub fn current_time(&self, now: u64) -> (r: u64)
        requires
            self.well_formed(),
        ensures
            r == self.position_at(now as int),
            r <= self.duration,
    {
        if self.paused {
            self.base_position
        } else {
            let since = now.saturating_sub(self.anchor);
            if since <= self.duration - self.base_position {
                self.base_position + since
            } else {
                self.duration
            }
        }
    }

    pub fn is_ended(&self, now: u64) -> (r: bool)
        requires
            self.well_formed(),
        ensures
            r == self.ended_at(now as int),
    {
        self.current_time(now) >= self.duration
    }

    pub fn toggle_pause(&mut self, now: u64)
        requires
            old(self).well_formed(),
        ensures
            *final(self) == old(self).toggled(now as int),
            final(self).well_formed(),
    {
        if self.is_ended(now) {
            return;
        }
        if self.paused {
            self.paused = false;
            self.anchor = now;
        } else {
            self.base_position = self.current_time(now);
            self.paused = true;
        }
    }

    pub fn restart(&mut self, now: u64)
        requires
            old(self).well_formed(),
        ensures
            *final(self) == old(self).restarted(now as int),
            final(self).well_formed(),
    {
        self.base_position = 0;
        self.anchor = now;
        self.paused = false;
    }

    /// Moves the sync offset by `delta` milliseconds, never below zero.
    pub fn adjust_offset(&mut self, delta: i64)
        ensures
            *final(self) == (PlaybackClock {
                sync_offset: old(self).shifted_offset(delta as int),
                ..*old(self)
            }),
    {
        if delta < 0 {
            let down = (0i128 - delta as i128) as u64;
            self.sync_offset = self.sync_offset.saturating_sub(down);
        } else {
            self.sync_offset = self.sync_offset.saturating_add(delta as u64);
        }
    }

    /// Pauses a running clock that has reached the end, at exactly the end.
    pub fn settle_end(&mut self, now: u64)
        requires
            old(self).well_formed(),
        ensures
            *final(self) == old(self).settled(now as int),
            final(self).well_formed(),
    {
        if self.is_ended(now) && !self.paused {
            self.paused = true;
            self.base_position = self.duration;
        }
    }
}

/// Pausing and resuming again at the same instant leaves the playback
/// position where it was.
pub proof fn lemma_pause_round_trip(c: PlaybackClock, now: int)
    requires
        c.well_formed(),
        0 <= now <= u64::MAX,
    ensures
        c.toggled(now).toggled(now).position_at(now) == c.position_at(now),
        c.toggled(now).toggled(now).well_formed(),
{
}

/// A restart puts the position at zero and the clock running, whatever the
/// clock held before.
pub proof fn lemma_restart_resets(c: PlaybackClock, now: int)
    requires
        0 <= now <= u64::MAX,
    ensures
        c.restarted(now).position_at(now) == 0,
        !c.restarted(now).paused,
{
}

} // verus!
