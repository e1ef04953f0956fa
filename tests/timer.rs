use forrest::timer::{Timer, TimerMode};

#[test]
fn once_timer_finishes_when_the_sum_reaches_the_duration() {
    let mut t = Timer::from_nanos(500, TimerMode::Once);
    t.tick(200);
    assert!(!t.finished);
    t.tick(299);
    assert!(!t.finished);
    t.tick(1);
    assert!(t.finished && t.just_finished);
    assert_eq!(t.elapsed, 500);
    t.tick(100);
    assert!(t.finished && !t.just_finished);
    assert_eq!(t.elapsed, 500);
}

#[test]
fn repeating_timer_wraps() {
    let mut t = Timer::from_nanos(300, TimerMode::Repeating);
    t.tick(250);
    assert!(!t.just_finished);
    t.tick(100);
    assert!(t.just_finished);
    assert_eq!(t.elapsed, 50);
    t.tick(10);
    assert!(!t.just_finished && !t.finished);
    t.set_duration(40);
    assert_eq!(t.elapsed, 39);
    t.tick(u64::MAX);
    assert!(t.just_finished);
}
