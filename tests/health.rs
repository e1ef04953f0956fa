use forrest::health::Health;

#[test]
fn new_full_starts_at_max() {
    let h = Health::new_full(10);
    assert_eq!(h.max(), 10);
    assert_eq!(h.current(), 10);
    assert!(h.is_alive());
    assert!(!h.is_dead());
}

#[test]
fn new_clamps_current_into_range() {
    assert_eq!(Health::new(10, 20).current(), 10);
    assert_eq!(Health::new(10, -5).current(), 0);
    assert_eq!(Health::new(10, 4).current(), 4);
}

#[test]
fn change_clamps_at_both_ends() {
    let mut h = Health::new(10, 5);
    h.change(-3);
    assert_eq!(h.current(), 2);
    h.change(-100);
    assert_eq!(h.current(), 0);
    assert!(h.is_dead());
    h.change(7);
    assert_eq!(h.current(), 7);
    h.change(100);
    assert_eq!(h.current(), 10);
    h.change(i32::MAX);
    assert_eq!(h.current(), 10);
    h.change(i32::MIN);
    assert_eq!(h.current(), 0);
}

#[test]
fn clamp_invariant_over_a_sequence_of_changes() {
    let mut h = Health::new_full(10);
    for d in [-3, 5, -20, 4, 4, 4, -1, 30, -9, -9] {
        h.change(d);
        assert!(0 <= h.current() && h.current() <= h.max());
    }
    assert_eq!(h.current(), 0);
}

#[test]
fn set_current_and_set_max_keep_the_range() {
    let mut h = Health::new_full(10);
    h.set_current(15);
    assert_eq!(h.current(), 10);
    h.set_current(-1);
    assert_eq!(h.current(), 0);
    h.set_current(8);
    h.set_max(5);
    assert_eq!(h.max(), 5);
    assert_eq!(h.current(), 5);
    h.set_max(20);
    assert_eq!(h.current(), 5);
}
