use vstd::prelude::*;
use crate::clock::{PlaybackClock, OFFSET_STEP};
use crate::lyrics::{
    LyricLine, Fraction, lines_well_formed, active_line, progress_of, completed, active_index,
    line_progress, is_completed,
};
use crate::render::{
    Segment, Tone, segments_view, lyric_segments, render_lyric_content, CENTER_ROW, VISIBLE_ROWS,
};
use crate::song_config::SongConfig;

verus! {

/// A user command from the keyboard.
#[derive(Debug, Clone, Copy, PartialEq, Eq, Structural)]
pub enum Control {
    Quit,
    TogglePause,
    Restart,
    OffsetUp,
    OffsetDown,
}

/// The running karaoke session: the song's lyrics and the playback clock.
pub struct KaraokeApp {
    pub song_title: String,
    pub lyrics: Vec<LyricLine>,
    pub clock: PlaybackClock,
}

/// Which lyric line row `row` of the window shows when line `active` is in
/// the middle row; none when there is no active line or the offset runs off
/// either end of the lyrics.
pub open spec fn row_line(active: Option<int>, row: int, len: int) -> Option<int> {
    match active {
        None => None,
        Some(a) => {
            let i = a + row - 2;
            if 0 <= i < len {
                Some(i)
            } else {
                None
            }
        },
    }
}

/// The segments of window row `row` at time `t`: blank with no line; the
/// active line split by progress between the two marker glyphs in the middle
/// row; a whole completed or upcoming line elsewhere.
pub open spec fn row_segments(s: Seq<LyricLine>, t: int, offset: int, row: int) -> Seq<
    (Seq<char>, Tone),
> {
    match row_line(active_line(s, t, offset), row, s.len() as int) {
        None => seq![],
        Some(i) => if row == 2 {
            seq![(">     "@, Tone::Marker)] + lyric_segments(
                s[i].text@,
                progress_of(s, t, offset, i),
                true,
                completed(s, t, offset, i),
            ) + seq![("     <"@, Tone::Marker)]
        } else {
            lyric_segments(s[i].text@, Fraction { num: 0, den: 1 }, false, completed(s, t, offset, i))
        },
    }
}

/// The clock after command `c` at `now`; the sync offset moves in steps of
/// `OFFSET_STEP` milliseconds.
pub open spec fn after_control(clock: PlaybackClock, c: Control, now: int) -> PlaybackClock {
    match c {
        Control::Quit => clock,
        Control::TogglePause => clock.toggled(now),
        Control::Restart => clock.restarted(now),
        Control::OffsetUp => PlaybackClock {
            sync_offset: clock.shifted_offset(OFFSET_STEP as int),
            ..clock
        },
        Control::OffsetDown => PlaybackClock {
            sync_offset: clock.shifted_offset(-OFFSET_STEP as int),
            ..clock
        },
    }
}

impl KaraokeApp {
    pub open spec fn well_formed(&self) -> bool {
        &&& lines_well_formed(self.lyrics@)
        &&& self.clock.well_formed()
    }

    /// Starts a session of `config` at wall-clock reading `now`.
    pub fn new(config: SongConfig, now: u64) -> (r: KaraokeApp)
        requires
            config.valid(),
        ensures
            r.well_formed(),
            r.song_title@ == config.title@,
            r.lyrics@ == config.lyrics@,
            r.clock == (PlaybackClock {
                base_position: config.start_position,
                anchor: now,
                paused: false,
                sync_offset: 0,
                duration: config.duration,
            }),
    {
        let clock = PlaybackClock::new(config.duration, config.start_position, now);
        KaraokeApp { song_title: config.title, lyrics: config.lyrics, clock }
    }

    pub fn get_current_time(&self, now: u64) -> (r: u64)
        requires
            self.well_formed(),
        ensures
            r == self.clock.position_at(now as int),
            r <= self.clock.duration,
    {
        self.clock.current_time(now)
    }

    pub fn is_song_ended(&self, now: u64) -> (r: bool)
        requires
            self.well_formed(),
        ensures
            r == self.clock.ended_at(now as int),
    {
        self.clock.is_ended(now)
    }

    pub fn toggle_pause(&mut self, now: u64)
        requires
            old(self).well_formed(),
        ensures
            final(self).well_formed(),
            final(self).clock == old(self).clock.toggled(now as int),
            final(self).lyrics@ == old(self).lyrics@,
            final(self).song_title@ == old(self).song_title@,
    {
        self.clock.toggle_pause(now);
    }

    pub fn get_current_line_index(&self, t: u64) -> (r: Option<usize>)
        ensures
            r matches Some(i) ==> i < self.lyrics@.len(),
            match r {
                Some(i) => active_line(self.lyrics@, t as int, self.clock.sync_offset as int) == Some(
                    i as int,
                ),
                None => active_line(self.lyrics@, t as int, self.clock.sync_offset as int) is None,
            },
    {
        active_index(&self.lyrics, t, self.clock.sync_offset)
    }

    pub fn get_line_progress(&self, t: u64, i: usize) -> (r: Fraction)
        requires
            self.well_formed(),
        ensures
            r == progress_of(self.lyrics@, t as int, self.clock.sync_offset as int, i as int),
            r.is_unit(),
    {
        line_progress(&self.lyrics, t, self.clock.sync_offset, i)
    }

    pub fn is_line_completed(&self, t: u64, i: usize) -> (r: bool)
        ensures
            r == completed(self.lyrics@, t as int, self.clock.sync_offset as int, i as int),
    {
        is_completed(&self.lyrics, t, self.clock.sync_offset, i)
    }

    /// The share of the song played at `now`, as position over length.
    pub fn playback_ratio(&self, now: u64) -> (r: Fraction)
        requires
            self.well_formed(),
        ensures
            r == (Fraction { num: self.clock.position_at(now as int) as u64, den: self.clock.duration }),
            r.is_unit(),
    {
        Fraction { num: self.clock.current_time(now), den: self.clock.duration }
    }

    /// The five rows of the lyric window at time `t`, each as styled segments.
    pub fn render_window(&self, t: u64) -> (r: Vec<Vec<Segment>>)
        requires
            self.well_formed(),
        ensures
            r@.len() == 5,
            forall|k: int|
                0 <= k < 5 ==> segments_view(#[trigger] r@[k]@) == row_segments(
                    self.lyrics@,
                    t as int,
                    self.clock.sync_offset as int,
                    k,
                ),
    {
        let ghost s = self.lyrics@;
        let ghost off = self.clock.sync_offset as int;
        let active = self.get_current_line_index(t);
        let n = self.lyrics.len();
        let mut rows: Vec<Vec<Segment>> = Vec::new();
        let mut row: usize = 0;
        while row < VISIBLE_ROWS
            invariant
                self.well_formed(),
                s == self.lyrics@,
                off == self.clock.sync_offset as int,
                n == s.len(),
                row <= 5,
                rows@.len() == row,
                match active {
                    Some(a) => active_line(s, t as int, off) == Some(a as int) && a < n,
                    None => active_line(s, t as int, off) is None,
                },
                forall|k: int|
                    0 <= k < row ==> segments_view(#[trigger] rows@[k]@) == row_segments(
                        s,
                        t as int,
                        off,
                        k,
                    ),
            decreases VISIBLE_ROWS - row,
        {
            let mut segs: Vec<Segment> = Vec::new();
            let shown: Option<usize> = match active {
                None => None,
                Some(a) => if row >= CENTER_ROW {
                    if row - CENTER_ROW < n - a { Some(a + (row - CENTER_ROW)) } else { None }
                } else {
                    if CENTER_ROW - row <= a { Some(a - (CENTER_ROW - row)) } else { None }
                },
            };
            assert(match shown {
                Some(i) => row_line(active_line(s, t as int, off), row as int, n as int) == Some(i as int),
                None => row_line(active_line(s, t as int, off), row as int, n as int) is None,
            });
            if let Some(i) = shown {
                let line = &self.lyrics[i];
                let done = self.is_line_completed(t, i);
                if row == CENTER_ROW {
                    let p = self.get_line_progress(t, i);
                    segs.push(Segment { text: String::from_str(">     "), tone: Tone::Marker });
                    let mut mid = render_lyric_content(line.text.as_str(), p, true, done);
                    segs.append(&mut mid);
                    segs.push(Segment { text: String::from_str("     <"), tone: Tone::Marker });
                    assert(segments_view(segs@) =~= row_segments(s, t as int, off, row as int));
                } else {
                    segs = render_lyric_content(line.text.as_str(), Fraction { num: 0, den: 1 }, false, done);
                }
            }
            assert(segments_view(segs@) =~= row_segments(s, t as int, off, row as int));
            rows.push(segs);
            row = row + 1;
        }
        rows
    }

    /// Applies a keyboard command at `now`; returns whether the session goes on.
    pub fn apply_control(&mut self, c: Control, now: u64) -> (r: bool)
        requires
            old(self).well_formed(),
        ensures
            r == !(c is Quit),
            final(self).well_formed(),
            final(self).lyrics@ == old(self).lyrics@,
            final(self).song_title@ == old(self).song_title@,
            final(self).clock == after_control(old(self).clock, c, now as int),
    {
        match c {
            Control::Quit => false,
            Control::TogglePause => {
                self.clock.toggle_pause(now);
                true
            },
            Control::Restart => {
                self.clock.restart(now);
                true
            },
            Control::OffsetUp => {
                self.clock.adjust_offset(OFFSET_STEP);
                true
            },
            Control::OffsetDown => {
                self.clock.adjust_offset(-OFFSET_STEP);
                true
            },
        }
    }

    /// Once per frame: a running clock that has reached the end pauses there.
    pub fn settle_end(&mut self, now: u64)
        requires
            old(self).well_formed(),
        ensures
            final(self).well_formed(),
            final(self).clock == old(self).clock.settled(now as int),
            final(self).lyrics@ == old(self).lyrics@,
            final(self).song_title@ == old(self).song_title@,
    {
        self.clock.settle_end(now);
    }
}

} // verus!
