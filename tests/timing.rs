use karaoke::clock::PlaybackClock;
use karaoke::lyrics::{active_index, is_completed, line_progress, Fraction, LyricLine};

fn line(text: &str, start_time: u64, end_time: u64) -> LyricLine {
    LyricLine { text: text.to_string(), start_time, end_time }
}

fn two_lines() -> Vec<LyricLine> {
    vec![line("A", 0, 3000), line("B", 3000, 6000)]
}

fn frac(num: u64, den: u64) -> Fraction {
    Fraction { num, den }
}

#[test]
fn scenario_two_lines_start() {
    let lines = two_lines();
    assert_eq!(active_index(&lines, 0, 0), Some(0));
    assert_eq!(line_progress(&lines, 0, 0, 0), frac(0, 3000));
}

#[test]
fn scenario_two_lines_midway() {
    let lines = two_lines();
    assert_eq!(active_index(&lines, 1500, 0), Some(0));
    assert_eq!(line_progress(&lines, 1500, 0, 0), frac(1500, 3000));
}

#[test]
fn scenario_two_lines_boundary() {
    let lines = two_lines();
    assert_eq!(active_index(&lines, 3000, 0), Some(1));
    assert_eq!(line_progress(&lines, 3000, 0, 1), frac(0, 3000));
    assert!(is_completed(&lines, 3000, 0, 0));
    assert!(!is_completed(&lines, 3000, 0, 1));
}

#[test]
fn scenario_two_lines_end() {
    let lines = two_lines();
    let clock = PlaybackClock::new(6000, 0, 0);
    assert!(clock.is_ended(6000));
    assert_eq!(clock.current_time(6000), 6000);
    assert_eq!(active_index(&lines, 6000, 0), Some(1));
    assert_eq!(line_progress(&lines, 6000, 0, 1), frac(3000, 3000));
}

#[test]
fn gap_keeps_last_finished_line() {
    let lines = vec![line("A", 0, 2000), line("B", 5000, 7000)];
    assert_eq!(active_index(&lines, 3500, 0), Some(0));
    assert!(is_completed(&lines, 3500, 0, 0));
    assert_eq!(active_index(&lines, 5000, 0), Some(1));
}

#[test]
fn nothing_before_first_line() {
    let lines = vec![line("A", 1000, 2000), line("B", 2000, 3000)];
    assert_eq!(active_index(&lines, 0, 0), None);
    assert_eq!(active_index(&lines, 999, 0), None);
    assert_eq!(active_index(&lines, 1000, 0), Some(0));
}

#[test]
fn offset_delays_lines() {
    let lines = two_lines();
    assert_eq!(active_index(&lines, 3000, 500), Some(0));
    assert_eq!(active_index(&lines, 3500, 500), Some(1));
    assert_eq!(line_progress(&lines, 2000, 500, 0), frac(1500, 3000));
    assert_eq!(active_index(&lines, 200, 500), None);
}

#[test]
fn single_line_stays_after_start() {
    let lines = vec![line("only", 1000, 2000)];
    assert_eq!(active_index(&lines, 500, 0), None);
    assert_eq!(active_index(&lines, 1000, 0), Some(0));
    assert_eq!(active_index(&lines, 50000, 0), Some(0));
}

#[test]
fn overlapping_lines_pick_first() {
    let lines = vec![line("A", 0, 4000), line("B", 1000, 2000)];
    assert_eq!(active_index(&lines, 1500, 0), Some(0));
    assert_eq!(active_index(&lines, 4000, 0), Some(1));
}

#[test]
fn active_index_never_goes_back() {
    let lines = vec![line("A", 0, 2000), line("B", 5000, 7000), line("C", 7000, 9000)];
    let mut prev: Option<usize> = None;
    let mut t: u64 = 0;
    while t <= 10000 {
        let cur = active_index(&lines, t, 300);
        assert!(prev <= cur);
        prev = cur;
        t += 250;
    }
}

#[test]
fn progress_rises_within_bounds() {
    let lines = two_lines();
    let mut prev = 0;
    let mut t: u64 = 0;
    while t <= 7000 {
        let p = line_progress(&lines, t, 0, 1);
        assert_eq!(p.den, 3000);
        assert!(p.num <= p.den);
        assert!(p.num >= prev);
        prev = p.num;
        t += 100;
    }
    assert_eq!(line_progress(&lines, 2999, 0, 1), frac(0, 3000));
    assert_eq!(line_progress(&lines, 5999, 0, 1), frac(2999, 3000));
}

#[test]
fn progress_past_last_index_is_zero() {
    let lines = two_lines();
    assert_eq!(line_progress(&lines, 1000, 0, 5), frac(0, 1));
    assert!(!is_completed(&lines, 100000, 0, 5));
}
