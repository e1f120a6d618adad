use alligator::Countdown;
use alligator::Driver;
use alligator::Immediate;
use alligator::Later;
use alligator::Operation;
use alligator::Progress;
use alligator::Resolution;
use alligator::Synchronizer;
use std::sync::Arc;
use std::time::Instant;

#[test]
fn immediate_ready_value_is_read_without_delay() {
    let start = Instant::now();
    let mut l = Later::new(Immediate::new(String::from("X")));
    let first = l.get();
    assert_eq!(first, "X");
    // The operation was ready at construction, so nothing ever blocks.
    assert!(start.elapsed().as_millis() < 1000);
    let second = l.get();
    assert_eq!(second, "X");
}

#[test]
fn read_returns_the_same_value_every_time() {
    let mut l = Later::new(Countdown::new(3, 42u64));
    assert_eq!(*l.read(), 42);
    assert_eq!(*l.read(), 42);
    assert_eq!(*l.read(), 42);
}

#[test]
fn get_twice_returns_equal_values() {
    let mut l = Later::new(Countdown::new(2, String::from("ready")));
    let first = l.get();
    let second = l.get();
    assert_eq!(first, "ready");
    assert_eq!(first, second);
}

#[test]
fn into_inner_equals_get_for_equivalent_operations() {
    let mut observed = Later::new(Countdown::new(4, String::from("done")));
    let consumed = Later::new(Countdown::new(4, String::from("done")));
    let read = observed.get();
    let extracted = consumed.into_inner();
    assert_eq!(read, extracted);
}

#[test]
fn into_inner_on_pending_operation_drives_it() {
    let l = Later::new(Countdown::new(5, 7u64));
    assert_eq!(l.into_inner(), 7);
}

#[test]
fn into_inner_on_ready_operation_returns_at_once() {
    let l = Later::new(Immediate::new(String::from("now")));
    assert_eq!(l.into_inner(), "now");
}

#[test]
fn read_mut_changes_the_cached_value() {
    let mut l = Later::new(Immediate::new(10u64));
    *l.read_mut() += 5;
    assert_eq!(l.get(), 15);
    assert_eq!(*l.read(), 15);
}

#[test]
fn read_mut_resolves_a_pending_operation_first() {
    let mut l = Later::new(Countdown::new(2, String::from("grow")));
    l.read_mut().push('n');
    assert_eq!(l.into_inner(), "grown");
}

#[test]
fn an_empty_value_round_trips_unchanged() {
    let mut l = Later::new(Immediate::new(String::new()));
    assert_eq!(l.get(), "");
    assert_eq!(l.into_inner(), "");
}

#[test]
fn a_zero_step_countdown_is_ready_at_construction() {
    let mut l = Later::new(Countdown::new(0, 11u64));
    assert_eq!(l.get(), 11);
    assert_eq!(l.into_inner(), 11);
}

#[test]
fn driver_resolves_a_ready_operation_on_the_first_attempt() {
    match Driver::new(Immediate::new(3u64)).drive_once() {
        Resolution::Resolved(v) => assert_eq!(v, 3),
        Resolution::Driving(_) => panic!("a ready operation must resolve at once"),
    }
}

#[test]
fn driver_hands_back_a_pending_operation() {
    match Driver::new(Countdown::new(1, 3u64)).drive_once() {
        Resolution::Resolved(_) => panic!("a pending operation must be handed back"),
        Resolution::Driving(d) => assert_eq!(d.drive_to_completion(), 3),
    }
}

#[test]
fn drive_to_completion_blocks_between_checks_until_ready() {
    let d = Driver::new(Countdown::new(6, String::from("eventually")));
    assert_eq!(d.drive_to_completion(), "eventually");
}

#[test]
fn a_signal_sent_before_block_is_not_lost() {
    let sync = Arc::new(Synchronizer::new());
    let handle = Synchronizer::register(&sync);
    handle.notify();
    // The flag was set before the wait, so this returns instead of hanging.
    sync.block();
}

#[test]
fn signalling_twice_is_harmless() {
    let sync = Arc::new(Synchronizer::new());
    let handle = Synchronizer::register(&sync);
    let copy = handle.clone();
    handle.notify();
    copy.notify();
    sync.block();
    sync.block();
}

#[test]
fn query_on_a_ready_operation_yields_its_value() {
    let sync = Arc::new(Synchronizer::new());
    let handle = Synchronizer::register(&sync);
    match Immediate::new(String::from("value")).query(&handle) {
        Progress::Ready(v) => assert_eq!(v, "value"),
        Progress::Pending(_) => panic!("an immediate operation is ready at the first query"),
    }
}

#[test]
fn query_counts_a_countdown_operation_down() {
    let sync = Arc::new(Synchronizer::new());
    let handle = Synchronizer::register(&sync);
    let mut op = Countdown::new(2, 9u64);
    for _ in 0..2 {
        op = match op.query(&handle) {
            Progress::Pending(next) => next,
            Progress::Ready(_) => panic!("the countdown must stay pending first"),
        };
    }
    match op.query(&handle) {
        Progress::Ready(v) => assert_eq!(v, 9),
        Progress::Pending(_) => panic!("the countdown must be ready after its steps"),
    }
}
