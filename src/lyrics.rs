use vstd::prelude::*;

verus! {

/// One timed lyric line; times are in milliseconds from the start of the song.
#[derive(Debug, Clone)]
pub struct LyricLine {
    pub text: String,
    pub start_time: u64,
    pub end_time: u64,
}

/// A fraction `num / den`, used for progress ratios in `[0, 1]`.
#[derive(Debug, Clone, Copy, PartialEq, Eq, Structural)]
pub struct Fraction {
    pub num: u64,
    pub den: u64,
}

impl Fraction {
    /// A ratio between zero and one with a positive denominator.
    pub open spec fn is_unit(self) -> bool {
        0 < self.den && self.num <= self.den
    }
}

/// A lyric sequence is well formed when it is non-empty, every line ends after
/// it starts, and lines are ordered by start time.
pub open spec fn lines_well_formed(s: Seq<LyricLine>) -> bool {
    &&& s.len() > 0
    &&& forall|i: int| 0 <= i < s.len() ==> #[trigger] s[i].start_time < s[i].end_time
    &&& forall|i: int, j: int|
        0 <= i <= j < s.len() ==> #[trigger] s[i].start_time <= #[trigger] s[j].start_time
}

/// `t` lies in the line's window shifted by the sync offset.
pub open spec fn in_window(l: LyricLine, t: int, offset: int) -> bool {
    l.start_time + offset <= t < l.end_time + offset
}

/// The line's shifted end has been reached at `t`.
pub open spec fn is_done(l: LyricLine, t: int, offset: int) -> bool {
    t >= l.end_time + offset
}

/// The first line at or after `from` whose shifted window holds `t`.
pub open spec fn first_in_window(s: Seq<LyricLine>, t: int, offset: int, from: nat) -> Option<
    int,
>
    decreases s.len() - from,
{
    if from >= s.len() {
        None
    } else if in_window(s[from as int], t, offset) {
        Some(from as int)
    } else {
        first_in_window(s, t, offset, from + 1)
    }
}

/// The last line before index `n` whose shifted end has been reached at `t`.
pub open spec fn last_done(s: Seq<LyricLine>, t: int, offset: int, n: nat) -> Option<int>
    decreases n,
{
    if n == 0 || n > s.len() {
        None
    } else if is_done(s[n - 1], t, offset) {
        Some(n - 1)
    } else {
        last_done(s, t, offset, (n - 1) as nat)
    }
}

/// The active line at `t`: the first line whose window holds `t`; else the
/// last line once its end has passed; else the most recently finished line;
/// else none.
pub open spec fn active_line(s: Seq<LyricLine>, t: int, offset: int) -> Option<int> {
    match first_in_window(s, t, offset, 0) {
        Some(i) => Some(i),
        None => if s.len() > 0 && is_done(s.last(), t, offset) {
            Some(s.len() - 1)
        } else {
            last_done(s, t, offset, s.len())
        },
    }
}

/// How far line `i` has been sung at `t`, as elapsed over total milliseconds of
/// the line: zero before its shifted start, whole from its shifted end on.
pub open spec fn progress_of(s: Seq<LyricLine>, t: int, offset: int, i: int) -> Fraction {
    if i < 0 || i >= s.len() {
        Fraction { num: 0, den: 1 }
    } else {
        let l = s[i];
        let span = l.end_time - l.start_time;
        if t < l.start_time + offset {
            Fraction { num: 0, den: span as u64 }
        } else if t >= l.end_time + offset {
            Fraction { num: span as u64, den: span as u64 }
        } else {
            Fraction { num: (t - l.start_time - offset) as u64, den: span as u64 }
        }
    }
}

/// Line `i` exists and its shifted end has been reached at `t`.
pub open spec fn completed(s: Seq<LyricLine>, t: int, offset: int, i: int) -> bool {
    0 <= i < s.len() && is_done(s[i], t, offset)
}

pub proof fn lemma_first_in_window(s: Seq<LyricLine>, t: int, offset: int, from: nat)
    ensures
        match first_in_window(s, t, offset, from) {
            Some(i) => from <= i < s.len() && in_window(s[i], t, offset) && forall|j: int|
                from <= j < i ==> !in_window(#[trigger] s[j], t, offset),
            None => forall|j: int| from <= j < s.len() ==> !in_window(#[trigger] s[j], t, offset),
        },
    decreases s.len() - from,
{
    if from < s.len() {
        lemma_first_in_window(s, t, offset, from + 1);
    }
}

pub proof fn lemma_last_done(s: Seq<LyricLine>, t: int, offset: int, n: nat)
    requires
        n <= s.len(),
    ensures
        match last_done(s, t, offset, n) {
            Some(i) => 0 <= i < n && is_done(s[i], t, offset) && forall|j: int|
                i < j < n ==> !is_done(#[trigger] s[j], t, offset),
            None => forall|j: int| 0 <= j < n ==> !is_done(#[trigger] s[j], t, offset),
        },
    decreases n,
{
    if n > 0 {
        lemma_last_done(s, t, offset, (n - 1) as nat);
    }
}

/// `a` comes no later than `b`, where no line comes before every line.
pub open spec fn index_le(a: Option<int>, b: Option<int>) -> bool {
    match (a, b) {
        (None, _) => true,
        (Some(_), None) => false,
        (Some(i), Some(j)) => i <= j,
    }
}

/// As playback moves forward the active line never moves back: for `t1 <= t2`
/// the line active at `t1` is at or before the one active at `t2`.
pub proof fn lemma_active_monotone(s: Seq<LyricLine>, offset: int, t1: int, t2: int)
    requires
        lines_well_formed(s),
        t1 <= t2,
    ensures
        index_le(active_line(s, t1, offset), active_line(s, t2, offset)),
{
    let n = s.len();
    lemma_first_in_window(s, t1, offset, 0);
    lemma_first_in_window(s, t2, offset, 0);
    lemma_last_done(s, t1, offset, n);
    lemma_last_done(s, t2, offset, n);
    let f1 = first_in_window(s, t1, offset, 0);
    let f2 = first_in_window(s, t2, offset, 0);
    let last = n - 1;
    assert(s.last() == s[last]);
    assert(s[last].start_time < s[last].end_time);
    if let Some(i) = f1 {
        if let Some(j) = f2 {
            if j < i {
                assert(s[j].start_time <= s[i].start_time);
                assert(!in_window(s[j], t1, offset));
            }
        } else {
            assert(!in_window(s[i], t2, offset));
            assert(is_done(s[i], t2, offset));
        }
    } else if is_done(s.last(), t1, offset) {
        if let Some(j) = f2 {
            assert(s[j].start_time <= s[last].start_time);
            assert(!in_window(s[j], t1, offset));
        }
    } else if let Some(k) = last_done(s, t1, offset, n) {
        assert(is_done(s[k], t2, offset));
        if let Some(j) = f2 {
            if j < k {
                assert(s[j].start_time <= s[k].start_time);
                assert(s[k].start_time < s[k].end_time);
                assert(!in_window(s[j], t1, offset));
            }
        }
    }
}

/// Progress through a line never decreases as time advances, stays within
/// `[0, 1]` over a fixed denominator, grows by no more than the time that
/// passed (so it has no jumps at the window's edges), is zero at the shifted
/// start and whole at the shifted end.
pub proof fn lemma_progress_monotone(s: Seq<LyricLine>, offset: int, i: int, t1: int, t2: int)
    requires
        lines_well_formed(s),
        t1 <= t2,
    ensures
        progress_of(s, t1, offset, i).is_unit(),
        progress_of(s, t2, offset, i).is_unit(),
        progress_of(s, t1, offset, i).den == progress_of(s, t2, offset, i).den,
        progress_of(s, t1, offset, i).num <= progress_of(s, t2, offset, i).num,
        progress_of(s, t2, offset, i).num - progress_of(s, t1, offset, i).num <= t2 - t1,
        0 <= i < s.len() ==> progress_of(s, s[i].start_time + offset, offset, i).num == 0,
        0 <= i < s.len() ==> progress_of(s, s[i].end_time + offset, offset, i).num
            == progress_of(s, s[i].end_time + offset, offset, i).den,
{
    if 0 <= i < s.len() {
        assert(s[i].start_time < s[i].end_time);
    }
}

/// Resolves the active line at time `t` with sync offset `offset`.
///
/// Scans forward for the first line whose shifted window holds `t`; failing
/// that, keeps the last line once the song's lyrics are over, and otherwise
/// the most recently finished line. O(n) in the number of lines.
pub fn active_index(lines: &Vec<LyricLine>, t: u64, offset: u64) -> (r: Option<usize>)
    ensures
        r matches Some(i) ==> i < lines@.len(),
        match r {
            Some(i) => active_line(lines@, t as int, offset as int) == Some(i as int),
            None => active_line(lines@, t as int, offset as int) is None,
        },
{
    let ghost s = lines@;
    let n = lines.len();
    let mut i: usize = 0;
    while i < n
        invariant
            n == s.len(),
            s == lines@,
            i <= n,
            first_in_window(s, t as int, offset as int, 0) == first_in_window(
                s,
                t as int,
                offset as int,
                i as nat,
            ),
        decreases n - i,
    {
        let line = &lines[i];
        let start = line.start_time as u128 + offset as u128;
        let end = line.end_time as u128 + offset as u128;
        if t as u128 >= start && (t as u128) < end {
            return Some(i);
        }
        i = i + 1;
    }
    assert(first_in_window(s, t as int, offset as int, 0) is None);
    if n == 0 {
        return None;
    }
    if t as u128 >= lines[n - 1].end_time as u128 + offset as u128 {
        return Some(n - 1);
    }
    assert(s.last() == s[n - 1]);
    assert(!is_done(s.last(), t as int, offset as int));
    assert(active_line(s, t as int, offset as int) == last_done(s, t as int, offset as int, n as nat));
    let mut k: usize = n;
    while k > 0
        invariant
            n == s.len(),
            s == lines@,
            k <= n,
            active_line(s, t as int, offset as int) == last_done(s, t as int, offset as int, n as nat),
            last_done(s, t as int, offset as int, n as nat) == last_done(
                s,
                t as int,
                offset as int,
                k as nat,
            ),
        decreases k,
    {
        if t as u128 >= lines[k - 1].end_time as u128 + offset as u128 {
            assert(last_done(s, t as int, offset as int, k as nat) == Some(k - 1));
            return Some(k - 1);
        }
        k = k - 1;
    }
    None
}

/// Progress through line `i` at `t`, as a fraction in `[0, 1]`; a line index
/// past the end gives zero.
pub fn line_progress(lines: &Vec<LyricLine>, t: u64, offset: u64, i: usize) -> (r: Fraction)
    requires
        lines_well_formed(lines@),
    ensures
        r == progress_of(lines@, t as int, offset as int, i as int),
        r.is_unit(),
{
    if i >= lines.len() {
        return Fraction { num: 0, den: 1 };
    }
    let line = &lines[i];
    assert(line.start_time < line.end_time);
    let span = line.end_time - line.start_time;
    let start = line.start_time as u128 + offset as u128;
    let end = line.end_time as u128 + offset as u128;
    if (t as u128) < start {
        Fraction { num: 0, den: span }
    } else if t as u128 >= end {
        Fraction { num: span, den: span }
    } else {
        Fraction { num: (t as u128 - start) as u64, den: span }
    }
}

/// Whether line `i` has been fully sung at `t`; false for an index past the end.
pub fn is_completed(lines: &Vec<LyricLine>, t: u64, offset: u64, i: usize) -> (r: bool)
    ensures
        r == completed(lines@, t as int, offset as int, i as int),
{
    if i >= lines.len() {
        return false;
    }
    t as u128 >= lines[i].end_time as u128 + offset as u128
}

} // verus!
