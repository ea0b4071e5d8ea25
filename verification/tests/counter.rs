use counter_duel::counter::Counter;

#[test]
fn test_counter_initial_state() {
    let counter = Counter::new();
    assert_eq!(counter.get_value(), 0);
    assert_eq!(counter.get_miss(), 0);
}

#[test]
fn test_counter_stop() {
    let mut counter = Counter::new();
    assert!(counter.start(10).is_ok()); // Fast speed for testing

    // Deliver the ticks a 10 ms producer loop would fit into 50 ms.
    counter.run_ticks(5);

    let (value, miss) = counter.stop();

    // The counter should have incremented at least once
    assert!(value > 0 || miss > 0);
}

#[test]
fn test_get_display_values() {
    let counter = Counter::new();
    let (value, miss, running) = counter.get_display_values();

    assert_eq!(value, 0);
    assert_eq!(miss, 0);
    assert_eq!(running, false);
}

#[test]
fn test_default() {
    let counter = Counter::default();
    assert_eq!(counter.get_value(), 0);
    assert_eq!(counter.get_miss(), 0);
}

#[test]
fn test_start_rejects_zero_interval() {
    let mut counter = Counter::new();
    let result = counter.start(0);
    assert!(result.is_err());
    assert!(result.unwrap_err().message().contains("Game logic error"));
    // The rejected start leaves the counter untouched.
    let (value, miss, running) = counter.get_display_values();
    assert_eq!((value, miss, running), (0, 0, false));
}

#[test]
fn test_ticks_wrap_once() {
    let mut counter = Counter::new();
    counter.start(10).unwrap();
    counter.run_ticks(101);
    assert_eq!(counter.stop(), (0, 1));
}

#[test]
fn test_ticks_wrap_twice() {
    let mut counter = Counter::new();
    counter.start(10).unwrap();
    counter.run_ticks(202);
    assert_eq!(counter.stop(), (0, 2));
}

#[test]
fn test_ticks_partial_lap() {
    let mut counter = Counter::new();
    counter.start(10).unwrap();
    counter.run_ticks(150);
    assert_eq!(counter.stop(), (49, 1));
}

#[test]
fn test_value_stays_on_dial() {
    let mut counter = Counter::new();
    counter.start(10).unwrap();
    let mut n: u32 = 0;
    while n < 250 {
        counter.tick();
        let (value, _, _) = counter.get_display_values();
        assert!(value <= 100);
        n += 1;
    }
}

#[test]
fn test_stop_then_snapshot_not_running() {
    let mut counter = Counter::new();
    counter.start(10).unwrap();
    counter.run_ticks(7);
    counter.stop();
    let (_, _, running) = counter.get_display_values();
    assert!(!running);
}

#[test]
fn test_start_immediately_stop() {
    let mut counter = Counter::new();
    counter.start(10).unwrap();
    assert_eq!(counter.stop(), (0, 0));
}

#[test]
fn test_restart_resets_state() {
    let mut counter = Counter::new();
    counter.start(10).unwrap();
    counter.run_ticks(137);
    let ended = counter.stop();
    assert_ne!(ended, (0, 0));
    counter.start(25).unwrap();
    assert_eq!(counter.get_display_values(), (0, 0, true));
}

#[test]
fn test_tick_after_stop_changes_nothing() {
    let mut counter = Counter::new();
    counter.start(10).unwrap();
    counter.run_ticks(42);
    let ended = counter.stop();
    counter.tick();
    let (value, miss, _) = counter.get_display_values();
    assert_eq!((value, miss), ended);
}
