use karaoke::clock::PlaybackClock;

#[test]
fn clock_runs_and_holds_at_end() {
    let c = PlaybackClock::new(6000, 0, 1000);
    assert_eq!(c.current_time(1000), 0);
    assert_eq!(c.current_time(2500), 1500);
    assert_eq!(c.current_time(100000), 6000);
    assert_eq!(c.current_time(500), 0);
    assert!(!c.is_ended(6999));
    assert!(c.is_ended(7000));
}

#[test]
fn pause_then_resume_keeps_position() {
    let mut c = PlaybackClock::new(10000, 0, 0);
    c.toggle_pause(4000);
    assert!(c.paused);
    assert_eq!(c.current_time(4000), 4000);
    assert_eq!(c.current_time(9000), 4000);
    c.toggle_pause(4000);
    assert!(!c.paused);
    assert_eq!(c.current_time(4000), 4000);
    assert_eq!(c.current_time(5000), 5000);
}

#[test]
fn resume_after_wait_continues_from_pause() {
    let mut c = PlaybackClock::new(10000, 0, 0);
    c.toggle_pause(2000);
    c.toggle_pause(8000);
    assert_eq!(c.current_time(8000), 2000);
    assert_eq!(c.current_time(9000), 3000);
}

#[test]
fn toggle_after_end_does_nothing() {
    let mut c = PlaybackClock::new(3000, 0, 0);
    let before = c;
    c.toggle_pause(5000);
    assert_eq!(c, before);
}

#[test]
fn restart_resets_position() {
    let mut c = PlaybackClock::new(10000, 0, 0);
    c.toggle_pause(7000);
    c.adjust_offset(300);
    c.restart(9000);
    assert!(!c.paused);
    assert_eq!(c.current_time(9000), 0);
    assert_eq!(c.sync_offset, 300);
}

#[test]
fn restart_after_end() {
    let mut c = PlaybackClock::new(3000, 0, 0);
    c.settle_end(4000);
    assert!(c.paused);
    c.restart(4000);
    assert!(!c.paused);
    assert_eq!(c.current_time(4000), 0);
}

#[test]
fn offset_clamps_at_zero() {
    let mut c = PlaybackClock::new(10000, 0, 0);
    c.adjust_offset(-1_000_000);
    assert_eq!(c.sync_offset, 0);
}

#[test]
fn offset_steps_add_up() {
    let mut c = PlaybackClock::new(10000, 0, 0);
    for _ in 0..10 {
        c.adjust_offset(100);
    }
    assert_eq!(c.sync_offset, 1000);
    c.adjust_offset(-100);
    assert_eq!(c.sync_offset, 900);
    c.adjust_offset(i64::MIN);
    assert_eq!(c.sync_offset, 0);
}

#[test]
fn offset_saturates_at_top() {
    let mut c = PlaybackClock::new(10000, 0, 0);
    c.adjust_offset(i64::MAX);
    c.adjust_offset(i64::MAX);
    c.adjust_offset(i64::MAX);
    assert_eq!(c.sync_offset, u64::MAX);
}

#[test]
fn settle_end_pauses_once() {
    let mut c = PlaybackClock::new(3000, 0, 0);
    c.settle_end(2000);
    assert!(!c.paused);
    c.settle_end(3500);
    assert!(c.paused);
    assert_eq!(c.base_position, 3000);
    let after = c;
    c.settle_end(9000);
    assert_eq!(c, after);
}
