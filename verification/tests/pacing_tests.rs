use sortmedium::medium::SortingList;
use sortmedium::parse::parse_i32;
use sortmedium::parse::parse_u64;
use sortmedium::visual::GuiVec;
use sortmedium::visual::THROTTLE_MS;
use sortmedium::visual::TONE_COUNT;

#[test]
fn parse_u64_reads_plain_decimal_runs() {
    assert_eq!(parse_u64(b"0"), Some(0));
    assert_eq!(parse_u64(b"123"), Some(123));
    assert_eq!(parse_u64(b"007"), Some(7));
    assert_eq!(parse_u64(b"18446744073709551615"), Some(u64::MAX));
}

#[test]
fn parse_u64_rejects_everything_else() {
    assert_eq!(parse_u64(b""), None);
    assert_eq!(parse_u64(b"12.5"), None);
    assert_eq!(parse_u64(b"12a"), None);
    assert_eq!(parse_u64(b" 5"), None);
    assert_eq!(parse_u64(b"-1"), None);
    assert_eq!(parse_u64(b"18446744073709551616"), None);
    assert_eq!(parse_u64(b"99999999999999999999999"), None);
}

#[test]
fn parse_i32_reads_signed_decimals() {
    assert_eq!(parse_i32(b"4"), Some(4));
    assert_eq!(parse_i32(b"-5"), Some(-5));
    assert_eq!(parse_i32(b"2147483647"), Some(i32::MAX));
    assert_eq!(parse_i32(b"-2147483648"), Some(i32::MIN));
    assert_eq!(parse_i32(b"2147483648"), None);
    assert_eq!(parse_i32(b"-2147483649"), None);
    assert_eq!(parse_i32(b"+5"), None);
    assert_eq!(parse_i32(b"-"), None);
    assert_eq!(parse_i32(b""), None);
}

#[test]
fn unparseable_delay_falls_back_to_pause_equivalent() {
    let mut m = GuiVec::new(3, 7);
    m.skipped = 1;
    let r = m.draw_tick(false, false, b"12.5", b"4", 0);
    assert!(r.presented);
    assert!(!m.is_paused);
    assert_eq!(m.delay, u64::MAX);
    assert_eq!(m.render_skip, 4);
    assert_eq!(m.skipped, 0);
}

#[test]
fn unparseable_steps_falls_back_to_one() {
    let mut m = GuiVec::new(3, 7);
    m.skipped = 1;
    let r = m.draw_tick(false, false, b"10", b"x", 5);
    assert!(r.presented);
    assert_eq!(m.render_skip, 1);
    assert_eq!(m.delay, 10);
    assert!(!r.stop, "5 ms accumulated has not reached the 10 ms delay");
}

#[test]
fn pause_forces_maximum_delay_and_unpause_restores() {
    let mut m = GuiVec::new(3, 0);
    m.skipped = 1;
    m.draw_tick(false, true, b"10", b"1", 0);
    assert!(m.is_paused);
    assert_eq!(m.delay, u64::MAX);

    m.skipped = 1;
    m.draw_tick(false, true, b"10", b"1", 0);
    assert!(!m.is_paused);
    assert_eq!(m.delay, 10);
}

#[test]
fn delay_reached_stops_the_wait_loop() {
    let mut m = GuiVec::new(3, 0);
    m.skipped = 1;
    let r = m.draw_tick(false, false, b"10", b"1", 10);
    assert!(r.stop);
    let mut m2 = GuiVec::new(3, 0);
    m2.skipped = 1;
    let r2 = m2.draw_tick(false, false, b"10", b"1", 9);
    assert!(!r2.stop);
}

#[test]
fn skipped_tick_only_counts_up() {
    let mut m = GuiVec::new(3, 50);
    m.render_skip = 3;
    let r = m.draw_tick(true, true, b"10", b"9", 60);
    assert!(!r.presented);
    assert_eq!(m.skipped, 1);
    // nothing else changed: the controls are not live on a skipped tick
    assert!(!m.done);
    assert!(!m.is_paused);
    assert_eq!(m.delay, 50);
    assert_eq!(m.render_skip, 3);
    // the accumulated 60 ms has reached the 50 ms delay
    assert!(r.stop);
}

#[test]
fn exit_action_sets_done_and_stops_at_once() {
    let mut m = GuiVec::new(3, 1000);
    m.skipped = 1;
    let r = m.draw_tick(true, false, b"1000", b"1", 0);
    assert!(m.done);
    assert!(r.stop);
    assert!(!r.presented);
}

#[test]
fn audio_step_is_throttled_and_maps_position_onto_bank() {
    let mut m = GuiVec::new(10, 0);
    assert_eq!(m.audio_step(5, 50), None, "inside the initial throttle window");
    assert_eq!(m.audio_step(5, THROTTLE_MS), Some(500));
    assert_eq!(m.last_played, THROTTLE_MS);
    assert_eq!(m.audio_step(5, 150), None);
    assert_eq!(m.last_played, THROTTLE_MS);
    let idx = m.audio_step(10, 250).unwrap();
    assert_eq!(idx, 1000);
    assert!(idx < TONE_COUNT);
    assert_eq!(m.last_played, 250);
}
