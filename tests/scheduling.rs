use grainboy::scheduler::{Scheduler, TICK_NANOS};

#[test]
fn clock_jump_runs_one_step_and_skips_to_current_tick() {
    let mut s = Scheduler::new();
    let w = s.wake(TICK_NANOS);
    assert!(w.step);
    assert_eq!(w.tick, 1);
    let elapsed = 5 * TICK_NANOS + 123;
    let w = s.wake(elapsed);
    assert!(w.step);
    assert_eq!(w.tick, 5);
    assert_eq!(s.last_tick, 5);
    assert_eq!(w.next_wake, 6 * TICK_NANOS);
    let w = s.wake(elapsed + 1);
    assert!(!w.step);
    assert_eq!(s.last_tick, 5);
}

#[test]
fn early_wake_runs_no_step() {
    let mut s = Scheduler::new();
    let w = s.wake(TICK_NANOS - 1);
    assert!(!w.step);
    assert_eq!(w.tick, 0);
    assert_eq!(w.next_wake, TICK_NANOS);
    assert_eq!(s.last_tick, 0);
}

#[test]
fn tick_length_is_a_sixtieth_of_a_second() {
    assert_eq!(TICK_NANOS, 1_000_000_000 / 60);
    let mut s = Scheduler::new();
    let w = s.wake(1_000_000_000);
    assert_eq!(w.tick, 60);
}
