use archery::timer::{OnceTimer, NANOS_PER_SEC};

#[test]
fn new_timer_is_unfinished() {
    let t = OnceTimer::new(3 * NANOS_PER_SEC);
    assert_eq!(t.duration_ns, 3_000_000_000);
    assert_eq!(t.elapsed_ns, 0);
    assert!(!t.finished());
    assert_eq!(t.remaining(), 3_000_000_000);
}

#[test]
fn tick_advances_elapsed_time() {
    let mut t = OnceTimer::new(1_000);
    t.tick(300);
    assert_eq!(t.elapsed_ns, 300);
    assert_eq!(t.remaining(), 700);
    assert!(!t.finished());
}

#[test]
fn tick_stops_at_duration() {
    let mut t = OnceTimer::new(1_000);
    t.tick(999);
    assert!(!t.finished());
    t.tick(5_000);
    assert_eq!(t.elapsed_ns, 1_000);
    assert!(t.finished());
    assert_eq!(t.remaining(), 0);
}

#[test]
fn tick_exactly_to_duration_finishes() {
    let mut t = OnceTimer::new(750_000_000);
    t.tick(750_000_000);
    assert!(t.finished());
    assert_eq!(t.elapsed_ns, 750_000_000);
}

#[test]
fn finished_timer_stays_unchanged() {
    let mut t = OnceTimer::new(10);
    t.tick(10);
    let before = t;
    t.tick(123_456);
    assert_eq!(t, before);
    t.tick(0);
    assert_eq!(t, before);
}

#[test]
fn ticks_add_up() {
    for (a, b) in [(0u64, 0u64), (3, 4), (600, 500), (1_000, 1), (250, 750)] {
        let mut split = OnceTimer::new(1_000);
        split.tick(a);
        split.tick(b);
        let mut whole = OnceTimer::new(1_000);
        whole.tick(a + b);
        assert_eq!(split, whole);
    }
}

#[test]
fn reset_starts_over() {
    let mut t = OnceTimer::new(1_000);
    t.tick(2_000);
    assert!(t.finished());
    t.reset();
    assert_eq!(t.elapsed_ns, 0);
    assert!(!t.finished());
    assert_eq!(t.duration_ns, 1_000);
}
