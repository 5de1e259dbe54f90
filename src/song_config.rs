use vstd::prelude::*;
use crate::lyrics::{LyricLine, lines_well_formed};

verus! {

/// A song: its title, length and timed lyrics, in milliseconds.
pub struct SongConfig {
    pub title: String,
    pub duration: u64,
    pub start_position: u64,
    pub lyrics: Vec<LyricLine>,
}

/// Why a song cannot be played.
#[derive(Debug, Clone, Copy, PartialEq, Eq, Structural)]
pub enum ConfigError {
    /// The song has no length.
    NonPositiveDuration,
    /// Playback would start after the song ends.
    StartPastEnd,
    /// There are no lyric lines.
    NoLyrics,
    /// The line at this index does not end after it starts.
    InvertedLine(usize),
    /// The line at this index starts before the line above it.
    OutOfOrder(usize),
}

/// The first `n` lines each end after they start and are ordered by start.
pub open spec fn prefix_ok(s: Seq<LyricLine>, n: int) -> bool {
    &&& forall|i: int| 0 <= i < n ==> #[trigger] s[i].start_time < s[i].end_time
    &&& forall|i: int, j: int| 0 <= i <= j < n ==> #[trigger] s[i].start_time <= #[trigger] s[j].start_time
}

impl SongConfig {
    /// The song can be played: positive length, a start within it, and
    /// well-formed lyrics.
    pub open spec fn valid(&self) -> bool {
        &&& 0 < self.duration
        &&& self.start_position <= self.duration
        &&& lines_well_formed(self.lyrics@)
    }

    /// Checks the song, reporting the first fault found: length, start,
    /// missing lyrics, then line by line an inverted interval or a line that
    /// starts before the one above it.
    pub fn validate(&self) -> (r: Result<(), ConfigError>)
        ensures
            r is Ok <==> self.valid(),
            (r == Err::<(), ConfigError>(ConfigError::NonPositiveDuration)) <==> self.duration == 0,
            (r == Err::<(), ConfigError>(ConfigError::StartPastEnd)) <==> (0 < self.duration
                && self.start_position > self.duration),
            (r == Err::<(), ConfigError>(ConfigError::NoLyrics)) <==> (0 < self.duration
                && self.start_position <= self.duration && self.lyrics@.len() == 0),
            r matches Err(ConfigError::InvertedLine(i)) ==> {
                &&& i < self.lyrics@.len()
                &&& self.lyrics@[i as int].start_time >= self.lyrics@[i as int].end_time
                &&& prefix_ok(self.lyrics@, i as int)
            },
            r matches Err(ConfigError::OutOfOrder(i)) ==> {
                &&& 0 < i < self.lyrics@.len()
                &&& self.lyrics@[i - 1].start_time > self.lyrics@[i as int].start_time
                &&& self.lyrics@[i as int].start_time < self.lyrics@[i as int].end_time
                &&& prefix_ok(self.lyrics@, i as int)
            },
            r matches Err(e) && !(e is NonPositiveDuration || e is StartPastEnd || e is NoLyrics)
                ==> 0 < self.duration && self.start_position <= self.duration,
    {
        if self.duration == 0 {
            return Err(ConfigError::NonPositiveDuration);
        }
        if self.start_position > self.duration {
            return Err(ConfigError::StartPastEnd);
        }
        let n = self.lyrics.len();
        if n == 0 {
            return Err(ConfigError::NoLyrics);
        }
        let mut i: usize = 0;
        while i < n
            invariant
                n == self.lyrics@.len(),
                0 < n,
                0 < self.duration,
                self.start_position <= self.duration,
                i <= n,
                prefix_ok(self.lyrics@, i as int),
            decreases n - i,
        {
            let line = &self.lyrics[i];
            if line.start_time >= line.end_time {
                return Err(ConfigError::InvertedLine(i));
            }
            if i > 0 && self.lyrics[i - 1].start_time > line.start_time {
                return Err(ConfigError::OutOfOrder(i));
            }
            proof {
                let s = self.lyrics@;
                assert forall|a: int, b: int| 0 <= a <= b < i + 1 implies #[trigger] s[a].start_time
                    <= #[trigger] s[b].start_time by {
                    if b == i && a < b {
                        assert(s[a].start_time <= s[i - 1].start_time);
                    }
                }
            }
            i = i + 1;
        }
        Ok(())
    }

    /// The built-in song: seven three-second lines over twenty-one seconds.
    pub fn load() -> (r: SongConfig)
        ensures
            r.valid(),
            r.duration == 21000,
            r.start_position == 0,
            r.lyrics@.len() == 7,
            forall|i: int|
                0 <= i < 7 ==> #[trigger] r.lyrics@[i].start_time == 3000 * i
                    && r.lyrics@[i].end_time == 3000 * (i + 1),
    {
        let mut lyrics: Vec<LyricLine> = Vec::new();
        lyrics.push(LyricLine { text: String::from_str("Example line 1"), start_time: 0, end_time: 3000 });
        lyrics.push(LyricLine { text: String::from_str("Example line 2"), start_time: 3000, end_time: 6000 });
        lyrics.push(LyricLine { text: String::from_str("Example line 3"), start_time: 6000, end_time: 9000 });
        lyrics.push(LyricLine { text: String::from_str("Example line 4"), start_time: 9000, end_time: 12000 });
        lyrics.push(LyricLine { text: String::from_str("Example line 5"), start_time: 12000, end_time: 15000 });
        lyrics.push(LyricLine { text: String::from_str("Example line 6"), start_time: 15000, end_time: 18000 });
        lyrics.push(LyricLine { text: String::from_str("Example line 7"), start_time: 18000, end_time: 21000 });
        let r = SongConfig { title: String::from_str("Title here"), duration: 21000, start_position: 0, lyrics };
        assert(forall|i: int| 0 <= i < 7 ==> #[trigger] r.lyrics@[i].start_time == 3000 * i
            && r.lyrics@[i].end_time == 3000 * (i + 1));
        r
    }
}

} // verus!
