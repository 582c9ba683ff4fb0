use log_tracing_layer::clock::Timestamp;
use log_tracing_layer::config::Limits;
use log_tracing_layer::json::Log;
use log_tracing_layer::queue::LogQueue;
use serde_json::Value;

fn at(secs: i64, nanos: u32) -> Timestamp {
    Timestamp { secs, nanos }
}

fn numbered(n: u64) -> Log {
    let mut log = Log::new();
    log.insert("n".to_string(), Value::from(n));
    log
}

fn numbers(batch: &[Log]) -> Vec<u64> {
    batch.iter().map(|log| log["n"].as_u64().unwrap()).collect()
}

fn filled(limits: Limits, count: u64, received_at: Timestamp) -> LogQueue {
    let mut queue = LogQueue::new(limits);
    for n in 0..count {
        queue.push(numbered(n), received_at);
    }
    queue
}

#[test]
fn a_new_queue_is_empty_and_never_due() {
    let queue = LogQueue::new(Limits::default());
    assert!(queue.is_empty());
    assert_eq!(queue.len(), 0);
    assert!(!queue.is_due(at(1_000_000, 0), false));
    assert!(!queue.is_due(at(1_000_000, 0), true));
    assert_eq!(queue.limits().max_batch_size(), 1000);
}

#[test]
fn pushing_grows_the_queue_at_its_tail() {
    let mut queue = LogQueue::new(Limits::default());
    queue.push(numbered(1), at(10, 0));
    queue.push(numbered(2), at(11, 0));
    queue.push(numbered(3), at(12, 0));
    assert_eq!(queue.len(), 3);
    assert!(!queue.is_empty());
    assert_eq!(numbers(&queue.take_batch()), vec![1, 2, 3]);
    assert!(queue.is_empty());
}

#[test]
fn a_young_queue_below_the_batch_size_is_not_due() {
    let queue = filled(Limits::default(), 999, at(100, 0));
    assert!(!queue.is_due(at(100, 0), false));
    assert!(!queue.is_due(at(104, 999_999_999), false));
}

#[test]
fn a_queue_is_due_once_its_newest_record_has_the_age_limit() {
    let queue = filled(Limits::default(), 1, at(100, 0));
    assert!(queue.is_due(at(105, 0), false));
    assert!(queue.is_due(at(200, 0), false));
}

#[test]
fn the_newest_record_decides_not_the_oldest() {
    let mut queue = LogQueue::new(Limits::default());
    queue.push(numbered(0), at(100, 0));
    queue.push(numbered(1), at(104, 0));
    // the oldest is six seconds old, the newest two
    assert!(!queue.is_due(at(106, 0), false));
    assert!(queue.is_due(at(109, 0), false));
}

#[test]
fn a_full_batch_is_due_at_any_age() {
    let queue = filled(Limits::default(), 1000, at(100, 0));
    assert!(queue.is_due(at(100, 0), false));
    assert!(queue.is_due(at(0, 0), false));
    let more = filled(Limits::default(), 1001, at(100, 0));
    assert!(more.is_due(at(100, 0), false));
}

#[test]
fn a_forced_flush_ignores_the_thresholds() {
    let queue = filled(Limits::default(), 1, at(100, 0));
    assert!(!queue.is_due(at(100, 0), false));
    assert!(queue.is_due(at(100, 0), true));
    assert!(queue.is_due(at(0, 0), true));
}

#[test]
fn a_batch_takes_all_records_of_a_short_queue() {
    let mut queue = filled(Limits::default(), 7, at(100, 0));
    assert_eq!(numbers(&queue.take_batch()), vec![0, 1, 2, 3, 4, 5, 6]);
    assert_eq!(queue.len(), 0);
}

#[test]
fn a_batch_of_an_empty_queue_is_empty() {
    let mut queue = LogQueue::new(Limits::default());
    assert!(queue.take_batch().is_empty());
    assert!(queue.is_empty());
}

#[test]
fn a_batch_never_exceeds_the_batch_size() {
    let mut queue = filled(Limits::new(3, 5, 3).unwrap(), 8, at(100, 0));
    assert_eq!(numbers(&queue.take_batch()), vec![0, 1, 2]);
    assert_eq!(queue.len(), 5);
    assert_eq!(numbers(&queue.take_batch()), vec![3, 4, 5]);
    assert_eq!(queue.len(), 2);
    assert_eq!(numbers(&queue.take_batch()), vec![6, 7]);
    assert_eq!(queue.len(), 0);
}

#[test]
fn fifteen_hundred_records_leave_as_a_thousand_and_five_hundred() {
    let mut queue = filled(Limits::default(), 1500, at(100, 0));
    let first = queue.take_batch();
    assert_eq!(first.len(), 1000);
    assert_eq!(numbers(&first), (0..1000).collect::<Vec<u64>>());
    assert_eq!(queue.len(), 500);
    // the rest is below the batch size: it waits for its age or for a flush
    assert!(!queue.is_due(at(100, 0), false));
    assert!(queue.is_due(at(105, 0), false));
    assert!(queue.is_due(at(100, 0), true));
    let second = queue.take_batch();
    assert_eq!(numbers(&second), (1000..1500).collect::<Vec<u64>>());
    assert!(queue.is_empty());
}

#[test]
fn records_pushed_after_a_batch_follow_the_rest() {
    let mut queue = filled(Limits::new(2, 5, 3).unwrap(), 3, at(100, 0));
    assert_eq!(numbers(&queue.take_batch()), vec![0, 1]);
    queue.push(numbered(9), at(101, 0));
    assert_eq!(numbers(&queue.take_batch()), vec![2, 9]);
}

#[test]
fn with_a_batch_size_of_one_every_record_is_due() {
    let mut queue = filled(Limits::new(1, 3600, 0).unwrap(), 2, at(100, 0));
    assert!(queue.is_due(at(100, 0), false));
    assert_eq!(numbers(&queue.take_batch()), vec![0]);
    assert!(queue.is_due(at(100, 0), false));
    assert_eq!(numbers(&queue.take_batch()), vec![1]);
    assert!(!queue.is_due(at(100, 0), false));
}

#[test]
fn a_record_that_arrives_before_the_newest_is_stamped_with_the_newest() {
    // the clock went back by fifty seconds between the two arrivals
    let mut queue = LogQueue::new(Limits::default());
    queue.push(numbered(0), at(100, 0));
    queue.push(numbered(1), at(50, 0));
    // stamped 100, not 50: five seconds after 50 nothing is due yet
    assert!(!queue.is_due(at(55, 0), false));
    assert!(!queue.is_due(at(104, 999_999_999), false));
    assert!(queue.is_due(at(105, 0), false));
    assert_eq!(numbers(&queue.take_batch()), vec![0, 1]);
}

#[test]
fn a_record_that_arrives_a_nanosecond_early_is_stamped_with_the_newest() {
    let mut queue = LogQueue::new(Limits::default());
    queue.push(numbered(0), at(100, 500));
    queue.push(numbered(1), at(100, 499));
    assert!(!queue.is_due(at(105, 499), false));
    assert!(queue.is_due(at(105, 500), false));
}

#[test]
fn a_record_that_arrives_at_or_after_the_newest_keeps_its_time() {
    let mut queue = LogQueue::new(Limits::default());
    queue.push(numbered(0), at(100, 0));
    queue.push(numbered(1), at(100, 0));
    assert!(queue.is_due(at(105, 0), false));
    queue.push(numbered(2), at(103, 0));
    assert!(!queue.is_due(at(107, 999_999_999), false));
    assert!(queue.is_due(at(108, 0), false));
}

#[test]
fn the_first_record_keeps_its_time_whatever_it_is() {
    let mut queue = LogQueue::new(Limits::default());
    queue.push(numbered(0), at(i64::MIN, 0));
    assert!(queue.is_due(at(i64::MIN + 5, 0), false));
    assert!(!queue.is_due(at(i64::MIN + 4, 0), false));
}

#[test]
fn after_a_batch_the_stamps_start_afresh() {
    let mut queue = LogQueue::new(Limits::default());
    queue.push(numbered(0), at(100, 0));
    queue.take_batch();
    queue.push(numbered(1), at(50, 0));
    assert!(queue.is_due(at(55, 0), false));
}
