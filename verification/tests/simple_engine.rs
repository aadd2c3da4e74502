//! Scenarios for the simple engine: size-threshold flushes, manual
//! triggers, teardown, and timer arming and staleness, all observed
//! through a recording consumer.

use buffer_trigger::simple_buffer_trigger::builder::Builder;
use buffer_trigger::BufferTrigger;
use std::cell::RefCell;
use std::rc::Rc;
use std::time::Duration;

type Record = Rc<RefCell<Vec<Vec<i32>>>>;

fn recording_engine(
    record: &Record,
) -> Builder<
    impl Fn(Vec<i32>, i32) -> Vec<i32>,
    impl Fn(Vec<i32>),
    impl Fn() -> Vec<i32>,
> {
    let sink = Rc::clone(record);
    Builder::builder(Vec::new)
        .accumulator(|mut c: Vec<i32>, e: i32| {
            c.push(e);
            c
        })
        .consumer(move |c: Vec<i32>| sink.borrow_mut().push(c))
}

/// The worked example of the design: threshold three, no interval, five
/// pushes; one size flush of the first three, one teardown flush of the
/// remaining two, and the lengths read 0,1,2,0,1 after each push.
#[test]
fn threshold_three_five_pushes() {
    let record: Record = Rc::new(RefCell::new(Vec::new()));
    let mut engine = recording_engine(&record).max_len(3).build::<i32, Vec<i32>>();

    let mut lens: Vec<usize> = Vec::new();
    for i in 1..=5 {
        engine.push(i);
        lens.push(engine.len());
    }
    assert_eq!(lens, vec![1, 2, 0, 1, 2]);
    assert_eq!(*record.borrow(), vec![vec![1, 2, 3]]);

    // Teardown: the owner flushes once before dropping the engine.
    engine.trigger();
    assert_eq!(*record.borrow(), vec![vec![1, 2, 3], vec![4, 5]]);
    assert!(engine.is_empty());
}

/// After the N-th push the buffer is empty again and exactly one batch of
/// exactly those N elements was consumed.
#[test]
fn size_threshold_exact_batch() {
    let record: Record = Rc::new(RefCell::new(Vec::new()));
    let mut engine = recording_engine(&record).max_len(4).build::<i32, Vec<i32>>();

    for i in 10..13 {
        engine.push(i);
        assert!(record.borrow().is_empty());
    }
    engine.push(13);
    assert!(engine.is_empty());
    assert_eq!(*record.borrow(), vec![vec![10, 11, 12, 13]]);
}

/// With a threshold of one every push flushes its own batch at once.
#[test]
fn threshold_one_flushes_each_push() {
    let record: Record = Rc::new(RefCell::new(Vec::new()));
    let mut engine = recording_engine(&record).max_len(1).build::<i32, Vec<i32>>();

    engine.push(1);
    engine.push(2);
    assert!(engine.is_empty());
    assert_eq!(*record.borrow(), vec![vec![1], vec![2]]);
}

/// A manual trigger on an empty buffer never invokes the consumer.
#[test]
fn empty_trigger_is_noop() {
    let record: Record = Rc::new(RefCell::new(Vec::new()));
    let mut engine = recording_engine(&record).build::<i32, Vec<i32>>();

    engine.trigger();
    assert!(record.borrow().is_empty());

    engine.push(1);
    engine.trigger();
    engine.trigger();
    assert_eq!(*record.borrow(), vec![vec![1]]);
}

/// Without a configured interval no push ever asks for a timer.
#[test]
fn no_interval_never_arms() {
    let record: Record = Rc::new(RefCell::new(Vec::new()));
    let mut engine = recording_engine(&record).build::<i32, Vec<i32>>();

    for i in 0..10 {
        assert_eq!(engine.push(i), None);
    }
    assert_eq!(engine.len(), 10);
    assert!(record.borrow().is_empty());
}

/// Only the first push of each cycle arms the one-shot timer; later
/// pushes of the same cycle never re-arm or extend it, and the first push
/// after a flush arms a fresh one.
#[test]
fn first_push_of_cycle_arms_timer() {
    let record: Record = Rc::new(RefCell::new(Vec::new()));
    let interval = Duration::from_millis(500);
    let mut engine = recording_engine(&record).interval(interval).build::<i32, Vec<i32>>();

    assert_eq!(engine.push(1), Some(interval));
    assert_eq!(engine.push(2), None);
    assert_eq!(engine.push(3), None);
    engine.trigger();
    assert_eq!(engine.push(4), Some(interval));
    assert_eq!(engine.push(5), None);
}

/// A timer notification whose cycle is still armed flushes exactly the
/// elements buffered since that cycle began.
#[test]
fn armed_clock_notification_flushes() {
    let record: Record = Rc::new(RefCell::new(Vec::new()));
    let mut engine = recording_engine(&record)
        .interval(Duration::from_millis(10))
        .build::<i32, Vec<i32>>();

    engine.push(1);
    engine.push(2);
    engine.listen_clock_trigger();
    assert_eq!(*record.borrow(), vec![vec![1, 2]]);
    assert!(engine.is_empty());
}

/// A timer notification that arrives after its cycle was already flushed
/// is stale: it causes no further consumer call and changes nothing.
#[test]
fn stale_clock_notification_is_dropped() {
    let record: Record = Rc::new(RefCell::new(Vec::new()));
    let mut engine = recording_engine(&record)
        .interval(Duration::from_millis(10))
        .build::<i32, Vec<i32>>();

    engine.push(1);
    engine.push(2);
    engine.trigger();
    assert_eq!(record.borrow().len(), 1);

    // The armed timer still fires; its notification must be a no-op now.
    engine.listen_clock_trigger();
    assert_eq!(*record.borrow(), vec![vec![1, 2]]);

    // A fresh cycle after the stale notification works as usual.
    engine.push(3);
    engine.listen_clock_trigger();
    assert_eq!(*record.borrow(), vec![vec![1, 2], vec![3]]);
}

/// A clock notification with nothing armed and nothing buffered is a
/// no-op too.
#[test]
fn clock_notification_on_idle_engine() {
    let record: Record = Rc::new(RefCell::new(Vec::new()));
    let mut engine = recording_engine(&record)
        .interval(Duration::from_millis(10))
        .build::<i32, Vec<i32>>();

    engine.listen_clock_trigger();
    assert!(record.borrow().is_empty());
    assert!(engine.is_empty());
}

/// The builder's label travels to the engine; unset, it stays the
/// default.
#[test]
fn builder_name() {
    let record: Record = Rc::new(RefCell::new(Vec::new()));
    let engine = recording_engine(&record)
        .name("shipper".to_string())
        .build::<i32, Vec<i32>>();
    assert_eq!(engine.name(), "shipper");

    let record2: Record = Rc::new(RefCell::new(Vec::new()));
    let engine2 = recording_engine(&record2).build::<i32, Vec<i32>>();
    assert_eq!(engine2.name(), "anonymous");
}

/// The container type is the caller's choice: here it is a running sum,
/// not a list, and the consumer receives the fold of the whole cycle.
#[test]
fn summing_container() {
    let sums: Rc<RefCell<Vec<u64>>> = Rc::new(RefCell::new(Vec::new()));
    let sink = Rc::clone(&sums);
    let mut engine = Builder::builder(|| 0u64)
        .accumulator(|c: u64, e: u64| c + e)
        .consumer(move |c: u64| sink.borrow_mut().push(c))
        .max_len(3)
        .build::<u64, u64>();

    engine.push(5);
    engine.push(7);
    engine.push(8);
    engine.push(100);
    engine.trigger();
    assert_eq!(*sums.borrow(), vec![20, 100]);
}

/// Conservation over a long run: no element is lost or duplicated, and
/// batches arrive in push order.
#[test]
fn conservation_over_many_cycles() {
    let record: Record = Rc::new(RefCell::new(Vec::new()));
    let mut engine = recording_engine(&record).max_len(15).build::<i32, Vec<i32>>();

    for i in 0..100 {
        engine.push(i);
    }
    engine.trigger();

    let flat: Vec<i32> = record.borrow().iter().flatten().copied().collect();
    let expected: Vec<i32> = (0..100).collect();
    assert_eq!(flat, expected);
    for (k, batch) in record.borrow().iter().enumerate() {
        if k < 6 {
            assert_eq!(batch.len(), 15);
        } else {
            assert_eq!(batch.len(), 10);
        }
    }
}
