use focus_time::display::display_line;
use focus_time::timer::Timer;

#[test]
fn new_timer_has_full_remaining() {
    let t = Timer::new(25 * 60 * 1000, 1_000);
    assert_eq!(t.remaining(1_000), 1_500_000);
    assert!(!t.is_paused());
}

#[test]
fn zero_duration_is_immediately_over() {
    let t = Timer::new(0, 5_000);
    assert_eq!(t.remaining(5_000), 0);
    assert!(!t.is_remaining(5_000));
}

#[test]
fn remaining_counts_down_and_clamps_at_zero() {
    let t = Timer::new(2_000, 0);
    assert_eq!(t.remaining(500), 1_500);
    assert_eq!(t.remaining(2_000), 0);
    // Long after the end it stays zero; it never wraps.
    assert_eq!(t.remaining(2_001), 0);
    assert_eq!(t.remaining(u64::MAX), 0);
}

#[test]
fn is_remaining_means_more_than_one_second() {
    let t = Timer::new(2_000, 0);
    assert!(t.is_remaining(999));
    assert!(!t.is_remaining(1_000));
}

#[test]
fn pause_freezes_and_resume_excludes_paused_time() {
    let mut t = Timer::new(60_000, 0);
    t.pause(10_000);
    assert!(t.is_paused());
    // Frozen at the value captured when pausing, whatever the clock says.
    assert_eq!(t.remaining(10_000), 50_000);
    assert_eq!(t.remaining(25_000), 50_000);
    t.resume(30_000);
    assert!(!t.is_paused());
    // Unchanged at the instant of resume, then decaying from that value.
    assert_eq!(t.remaining(30_000), 50_000);
    assert_eq!(t.remaining(35_000), 45_000);
}

#[test]
fn pause_and_resume_are_idempotent() {
    let mut t = Timer::new(60_000, 0);
    t.resume(5_000);
    assert_eq!(t.remaining(5_000), 55_000);
    t.pause(10_000);
    t.pause(20_000);
    assert_eq!(t.remaining(20_000), 50_000);
    t.resume(30_000);
    t.resume(40_000);
    assert_eq!(t.remaining(40_000), 40_000);
}

#[test]
fn toggle_twice_returns_to_running() {
    let mut t = Timer::new(60_000, 0);
    t.toggle_pause(10_000);
    assert!(t.is_paused());
    t.toggle_pause(20_000);
    assert!(!t.is_paused());
    assert_eq!(t.remaining(20_000), 50_000);
}

#[test]
fn time_parts_split_hours_minutes_seconds() {
    let t = Timer::new(3_725_000, 0);
    assert_eq!(t.remaining_time_parts(0), (1, 2, 5));
    assert_eq!(t.timer_time_parts(), (1, 2, 5));
    assert_eq!(t.remaining_time_parts(65_000), (1, 1, 0));
}

#[test]
fn fixed_format_is_always_full_clock() {
    let t = Timer::new(3_725_000, 0);
    assert_eq!(t.remaining_str_fixed_format(0), "01:02:05");
    let short = Timer::new(7_000, 0);
    assert_eq!(short.remaining_str_fixed_format(0), "00:00:07");
    let long = Timer::new(100 * 3600 * 1000, 0);
    assert_eq!(long.remaining_str_fixed_format(0), "100:00:00");
}

#[test]
fn adapted_format_keeps_clock_while_hours_remain() {
    let t = Timer::new(3_725_000, 0);
    assert_eq!(t.remaining_str_adapted_format(0), "01:02:05");
}

#[test]
fn adapted_format_rounds_to_half_minute_under_an_hour() {
    let t = Timer::new(9 * 60_000 + 59_000, 0);
    assert_eq!(t.remaining_str_adapted_format(0), "09:30");
    let t2 = Timer::new(60_000, 0);
    assert_eq!(t2.remaining_str_adapted_format(0), "01:00");
}

#[test]
fn adapted_format_rounds_to_ten_seconds_under_a_minute() {
    let t = Timer::new(59_000, 0);
    assert_eq!(t.remaining_str_adapted_format(0), "00:50");
    let t2 = Timer::new(10_000, 0);
    assert_eq!(t2.remaining_str_adapted_format(0), "00:10");
}

#[test]
fn adapted_format_is_exact_in_the_final_ten_seconds() {
    let t = Timer::new(7_000, 0);
    assert_eq!(t.remaining_str_adapted_format(0), "00:07");
    let t2 = Timer::new(0, 0);
    assert_eq!(t2.remaining_str_adapted_format(0), "00:00");
}

#[test]
fn display_line_shows_time_and_pause_state() {
    let t = Timer::new(59_000, 0);
    assert_eq!(display_line(&t, 0), "Time remaining: 00:50");
    let mut p = Timer::new(59_000, 0);
    p.pause(1_000);
    assert_eq!(display_line(&p, 1_000), "Time remaining: 00:50 (PAUSED)");
}
