use player_dash::timer::Timer;

#[test]
fn new_timer_starts_at_zero() {
    let t = Timer::new(200);
    assert_eq!(t.elapsed_ms, 0);
    assert_eq!(t.duration_ms, 200);
    assert!(!t.just_finished);
}

#[test]
fn new_finished_timer_is_at_its_end() {
    let t = Timer::new_finished(200);
    assert_eq!(t.elapsed_ms, 200);
    assert_eq!(t.duration_ms, 200);
    assert!(!t.just_finished);
}

#[test]
fn tick_accrues_time() {
    let mut t = Timer::new(100);
    t.tick(30);
    assert_eq!(t.elapsed_ms, 30);
    assert!(!t.just_finished);
    t.tick(30);
    assert_eq!(t.elapsed_ms, 60);
    assert!(!t.just_finished);
}

#[test]
fn tick_reports_completion_exactly_once() {
    let mut t = Timer::new(100);
    t.tick(100);
    assert_eq!(t.elapsed_ms, 100);
    assert!(t.just_finished);
    t.tick(50);
    assert_eq!(t.elapsed_ms, 100);
    assert!(!t.just_finished);
}

#[test]
fn tick_clamps_overshoot_to_duration() {
    let mut t = Timer::new(100);
    t.tick(250);
    assert_eq!(t.elapsed_ms, 100);
    assert!(t.just_finished);
}

#[test]
fn finished_timer_does_not_advance() {
    let mut t = Timer::new_finished(100);
    t.tick(40);
    assert_eq!(t.elapsed_ms, 100);
    assert!(!t.just_finished);
}

#[test]
fn reset_restarts_the_timer() {
    let mut t = Timer::new(100);
    t.tick(100);
    assert!(t.just_finished);
    t.reset();
    assert_eq!(t.elapsed_ms, 0);
    assert!(!t.just_finished);
    t.tick(100);
    assert!(t.just_finished);
}
