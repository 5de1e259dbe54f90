use vstd::prelude::*;
use vstd::string::*;
use crate::lyrics::Fraction;

verus! {

/// How a piece of lyric text is drawn.
#[derive(Debug, Clone, Copy, PartialEq, Eq, Structural)]
pub enum Tone {
    /// The already-sung part of the active line.
    Sung,
    /// The not-yet-sung part of the active line.
    Unsung,
    /// A neighbouring line that has been sung.
    Completed,
    /// A neighbouring line still to come.
    Upcoming,
    /// The glyphs that flank the active line.
    Marker,
}

/// A run of text drawn in one tone.
#[derive(Debug, Clone)]
pub struct Segment {
    pub text: String,
    pub tone: Tone,
}

/// One character cell of the progress bar.
#[derive(Debug, Clone, Copy, PartialEq, Eq, Structural)]
pub enum BarCell {
    /// The moving position dot.
    Marker,
    /// Track that has been played.
    Played,
    /// Track still to be played.
    Unplayed,
}

/// Sub-units that make up one cell of the progress bar.
pub const CELL_UNITS: usize = 100;

/// Width of the progress bar, in character cells.
pub const BAR_WIDTH: usize = 30;

/// Rows in the visible lyric window; the active line sits in the middle row.
pub const VISIBLE_ROWS: usize = 5;

pub const CENTER_ROW: usize = 2;

pub open spec fn segments_view(v: Seq<Segment>) -> Seq<(Seq<char>, Tone)> {
    v.map_values(|g: Segment| (g.text@, g.tone))
}

/// The character index at which a line of `len` characters is split when
/// `p` of it has been sung: `floor(len * p)`.
pub open spec fn split_index(len: nat, p: Fraction) -> int {
    (len * p.num) / (p.den as int)
}

/// The segment for `part` in `tone`, or nothing when `part` is empty.
pub open spec fn piece(part: Seq<char>, tone: Tone) -> Seq<(Seq<char>, Tone)> {
    if part.len() > 0 {
        seq![(part, tone)]
    } else {
        seq![]
    }
}

/// The segments of one lyric line: an active line is split into its sung
/// prefix and unsung suffix (empty parts left out); any other line is one
/// segment, completed or upcoming.
pub open spec fn lyric_segments(text: Seq<char>, p: Fraction, active: bool, done: bool) -> Seq<
    (Seq<char>, Tone),
> {
    if active {
        let k = split_index(text.len(), p);
        piece(text.subrange(0, k), Tone::Sung) + piece(text.subrange(k, text.len() as int), Tone::Unsung)
    } else if done {
        seq![(text, Tone::Completed)]
    } else {
        seq![(text, Tone::Upcoming)]
    }
}

/// Sub-units filled on a bar of `width` cells at ratio `p`: `floor(width * 100 * p)`.
pub open spec fn bar_fill(width: nat, p: Fraction) -> int {
    (width * 100 * p.num) / (p.den as int)
}

/// The cell holding the position dot: `min(floor(width * p), width - 1)`, and
/// the first cell on a bar without cells.
pub open spec fn bar_marker(width: nat, p: Fraction) -> int {
    let m = (width * p.num) / (p.den as int);
    if width == 0 {
        0
    } else if m < width - 1 {
        m
    } else {
        width - 1
    }
}

/// Sub-units of cell `i` that are filled, from 0 to 100.
pub open spec fn cell_fill(width: nat, p: Fraction, i: int) -> int {
    let f = bar_fill(width, p) - 100 * i;
    if f <= 0 {
        0
    } else if f >= 100 {
        100
    } else {
        f
    }
}

/// Cell `i` of the bar: the dot at the marker cell, else played when any of
/// its sub-units are filled, else unplayed.
pub open spec fn bar_cell(width: nat, p: Fraction, i: int) -> BarCell {
    if i == bar_marker(width, p) {
        BarCell::Marker
    } else if cell_fill(width, p, i) > 0 {
        BarCell::Played
    } else {
        BarCell::Unplayed
    }
}

/// Splits `text` for display; `progress` matters only for the active line.
pub fn render_lyric_content(text: &str, progress: Fraction, is_active: bool, is_completed: bool) -> (r: Vec<Segment>)
    requires
        progress.is_unit(),
    ensures
        segments_view(r@) == lyric_segments(text@, progress, is_active, is_completed),
{
    let mut spans: Vec<Segment> = Vec::new();
    if is_active {
        let len = text.unicode_len();
        proof {
            assert(len * progress.num <= 0xffff_ffff_ffff_ffffu64 * 0xffff_ffff_ffff_ffffu64)
                by (nonlinear_arith)
                requires len <= 0xffff_ffff_ffff_ffffu64, progress.num <= 0xffff_ffff_ffff_ffffu64;
            assert(len * progress.num <= len * progress.den) by (nonlinear_arith)
                requires progress.num <= progress.den;
            assert((len * progress.num) / (progress.den as int) <= len) by (nonlinear_arith)
                requires len * progress.num <= len * progress.den, progress.den > 0;
        }
        let k = ((len as u128 * progress.num as u128) / progress.den as u128) as usize;
        let sung = String::from_str(text.substring_char(0, k));
        let unsung = String::from_str(text.substring_char(k, len));
        let ghost p1 = piece(sung@, Tone::Sung);
        if k > 0 {
            spans.push(Segment { text: sung, tone: Tone::Sung });
        }
        assert(segments_view(spans@) =~= p1);
        if k < len {
            spans.push(Segment { text: unsung, tone: Tone::Unsung });
        }
    } else if is_completed {
        spans.push(Segment { text: String::from_str(text), tone: Tone::Completed });
    } else {
        spans.push(Segment { text: String::from_str(text), tone: Tone::Upcoming });
    }
    assert(segments_view(spans@) =~= lyric_segments(text@, progress, is_active, is_completed));
    spans
}

/// A bar of `width` cells showing ratio `progress`, with one dot at the
/// position and each other cell played or unplayed.
pub fn create_progress_bar(progress: Fraction, width: usize) -> (r: Vec<BarCell>)
    requires
        progress.is_unit(),
        width * 100 <= usize::MAX,
    ensures
        r@.len() == width,
        forall|i: int| 0 <= i < width ==> r@[i] == bar_cell(width as nat, progress, i),
{
    proof {
        assert(width * 100 * progress.num <= 0xffff_ffff_ffff_ffffu64 * 0xffff_ffff_ffff_ffffu64)
            by (nonlinear_arith)
            requires width * 100 <= 0xffff_ffff_ffff_ffffu64, progress.num <= 0xffff_ffff_ffff_ffffu64;
        assert(width * progress.num <= width * 100 * progress.num) by (nonlinear_arith);
        assert(width * progress.num <= width * progress.den) by (nonlinear_arith)
            requires progress.num <= progress.den;
        assert((width * progress.num) / (progress.den as int) <= width) by (nonlinear_arith)
            requires width * progress.num <= width * progress.den, progress.den > 0;
        assert(width * 100 * progress.num <= width * 100 * progress.den) by (nonlinear_arith)
            requires progress.num <= progress.den;
        assert((width * 100 * progress.num) / (progress.den as int) <= width * 100) by (nonlinear_arith)
            requires width * 100 * progress.num <= width * 100 * progress.den, progress.den > 0;
    }
    let total = width as u128 * 100;
    let filled = total * progress.num as u128 / progress.den as u128;
    let m = width as u128 * progress.num as u128 / progress.den as u128;
    let filled = filled as usize;
    let last = width.saturating_sub(1);
    let dot = if (m as usize) < last { m as usize } else { last };
    assert(dot == bar_marker(width as nat, progress));
    assert(filled == bar_fill(width as nat, progress));
    let mut cells: Vec<BarCell> = Vec::new();
    let mut i: usize = 0;
    while i < width
        invariant
            i <= width,
            width * 100 <= usize::MAX,
            filled == bar_fill(width as nat, progress),
            dot == bar_marker(width as nat, progress),
            cells@.len() == i,
            forall|j: int| 0 <= j < i ==> cells@[j] == bar_cell(width as nat, progress, j),
        decreases width - i,
    {
        let start = i * CELL_UNITS;
        let in_cell = if filled > start {
            if filled - start < CELL_UNITS { filled - start } else { CELL_UNITS }
        } else {
            0
        };
        assert(in_cell == cell_fill(width as nat, progress, i as int));
        if i == dot {
            cells.push(BarCell::Marker);
        } else if in_cell > 0 {
            cells.push(BarCell::Played);
        } else {
            cells.push(BarCell::Unplayed);
        }
        i = i + 1;
    }
    cells
}

/// The decimal digit `d`, for `0 <= d < 10`.
pub open spec fn digit_char(d: int) -> char {
    "0123456789"@[d]
}

/// `n` written in decimal without leading zeros.
pub open spec fn decimal(n: nat) -> Seq<char>
    decreases n,
{
    if n < 10 {
        seq![digit_char(n as int)]
    } else {
        decimal(n / 10).push(digit_char((n % 10) as int))
    }
}

/// A millisecond time shown as whole minutes, a colon, and two-digit seconds.
pub open spec fn clock_text(ms: nat) -> Seq<char> {
    let total = ms / 1000;
    let secs = total % 60;
    decimal(total / 60) + seq![':', digit_char((secs / 10) as int), digit_char((secs % 10) as int)]
}

fn digit_text(d: u64) -> (r: &'static str)
    requires
        d < 10,
    ensures
        r@ == seq![digit_char(d as int)],
{
    let digits = "0123456789";
    proof {
        reveal_strlit("0123456789");
    }
    let r = digits.substring_char(d as usize, d as usize + 1);
    assert(r@ =~= seq![digit_char(d as int)]);
    r
}

fn push_decimal(out: &mut String, n: u64)
    ensures
        final(out)@ == old(out)@ + decimal(n as nat),
    decreases n,
{
    if n >= 10 {
        push_decimal(out, n / 10);
    }
    out.append(digit_text(n % 10));
    assert(out@ =~= old(out)@ + decimal(n as nat));
}

/// Formats a time given in milliseconds as `m:ss`, e.g. `1:05`.
pub fn format_time(ms: u64) -> (r: String)
    ensures
        r@ == clock_text(ms as nat),
{
    let total = ms / 1000;
    let secs = total % 60;
    let mut out = String::new();
    push_decimal(&mut out, total / 60);
    out.append(":");
    out.append(digit_text(secs / 10));
    out.append(digit_text(secs % 10));
    proof {
        reveal_strlit(":");
    }
    assert(out@ =~= clock_text(ms as nat));
    out
}

/// Rows above the lyric window that centre it in an area of `height` rows.
pub fn top_padding(height: usize) -> (r: usize)
    ensures
        r == (if height >= VISIBLE_ROWS { (height - VISIBLE_ROWS) as int / 2 } else { 0 }),
{
    height.saturating_sub(VISIBLE_ROWS) / 2
}

} // verus!
