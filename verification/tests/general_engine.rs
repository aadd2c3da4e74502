//! Scenarios for the general engine and its payloads: the crate's own
//! `VecPayload` and a caller-defined payload with its own accounting.

use buffer_trigger::general::builder::Builder;
use buffer_trigger::general::vec_payload::VecPayload;
use buffer_trigger::general::Payload;
use buffer_trigger::BufferTrigger;
use std::cell::RefCell;
use std::rc::Rc;
use std::time::Duration;

type Record = Rc<RefCell<Vec<Vec<i32>>>>;

/// The general engine over `VecPayload` batches exactly like the simple
/// engine: size flushes, manual flushes, nothing lost.
#[test]
fn general_vec_payload_batches() {
    let record: Record = Rc::new(RefCell::new(Vec::new()));
    let sink = Rc::clone(&record);
    let mut engine = Builder::builder()
        .payload(VecPayload::new())
        .consumer(move |c: Vec<i32>| sink.borrow_mut().push(c))
        .max_len(2)
        .build::<i32>();

    engine.push(1);
    assert_eq!(engine.len(), 1);
    engine.push(2);
    assert!(engine.is_empty());
    engine.push(3);
    engine.trigger();
    assert_eq!(*record.borrow(), vec![vec![1, 2], vec![3]]);
}

/// Timer arming and staleness behave as on the simple engine.
#[test]
fn general_clock_arming_and_staleness() {
    let record: Record = Rc::new(RefCell::new(Vec::new()));
    let sink = Rc::clone(&record);
    let interval = Duration::from_millis(20);
    let mut engine = Builder::builder()
        .payload(VecPayload::new())
        .consumer(move |c: Vec<i32>| sink.borrow_mut().push(c))
        .interval(interval)
        .build::<i32>();

    assert_eq!(engine.push(1), Some(interval));
    assert_eq!(engine.push(2), None);
    engine.trigger();
    engine.listen_clock_trigger();
    assert_eq!(*record.borrow(), vec![vec![1, 2]]);

    assert_eq!(engine.push(3), Some(interval));
    engine.listen_clock_trigger();
    assert_eq!(*record.borrow(), vec![vec![1, 2], vec![3]]);
}

/// The payload operations themselves, exercised directly.
#[test]
fn vec_payload_operations() {
    let mut p: VecPayload<u8> = VecPayload::new();
    assert_eq!(p.get_len(), 0);
    p.incr_len();
    p.accumulate(7);
    p.incr_len();
    p.accumulate(9);
    assert_eq!(p.get_len(), 2);
    p.clear_len();
    assert_eq!(p.get_len(), 0);
    let batch = p.get_and_clear_container();
    assert_eq!(batch, vec![7, 9]);
    let empty = p.get_and_clear_container();
    assert!(empty.is_empty());
}

/// A payload handed to the builder with elements already in it: the first
/// flush hands over the prefilled elements together with what was pushed
/// after construction.
#[test]
fn prefilled_payload() {
    let record: Record = Rc::new(RefCell::new(Vec::new()));
    let sink = Rc::clone(&record);
    let mut engine = Builder::builder()
        .payload(VecPayload { len: 2, container: vec![8, 9] })
        .consumer(move |c: Vec<i32>| sink.borrow_mut().push(c))
        .max_len(3)
        .build::<i32>();

    assert_eq!(engine.len(), 2);
    engine.push(10);
    assert!(engine.is_empty());
    assert_eq!(*record.borrow(), vec![vec![8, 9, 10]]);
}
