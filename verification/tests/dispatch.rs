use sanglier::dispatch::{after_cycle, collect_batches, drain_cap, drain_step, should_exit, should_wait, CycleEnd, PROCESS_MAX};
use sanglier::event::Event;
use sanglier::wire::encode_batch;

fn ev(name: &str) -> Event {
    Event { name: name.to_string(), distinct_id: String::new(), properties: None }
}

fn burst(n: usize) -> Vec<Event> {
    (0..n).map(|i| ev(&format!("e{}", i))).collect()
}

#[test]
fn cap_follows_queue_length_up_to_the_bound() {
    assert_eq!(drain_cap(0), 0);
    assert_eq!(drain_cap(5), 5);
    assert_eq!(drain_cap(PROCESS_MAX), PROCESS_MAX);
    assert_eq!(drain_cap(PROCESS_MAX + 72), PROCESS_MAX);
}

#[test]
fn wait_only_when_nothing_is_queued() {
    assert!(should_wait(0));
    assert!(!should_wait(1));
}

#[test]
fn exit_only_when_closed_and_drained() {
    assert!(should_exit(0, true));
    assert!(!should_exit(0, false));
    assert!(!should_exit(3, true));
    assert!(!should_exit(3, false));
}

#[test]
fn full_cycle_drains_again_short_cycle_goes_idle() {
    assert_eq!(after_cycle(PROCESS_MAX, PROCESS_MAX), CycleEnd::DrainAgain);
    assert_eq!(after_cycle(5, PROCESS_MAX), CycleEnd::BackToIdle);
    assert_eq!(after_cycle(0, 0), CycleEnd::DrainAgain);
}

#[test]
fn small_queue_drains_in_one_step() {
    let mut q = burst(3);
    let batch = drain_step(&mut q);
    assert_eq!(batch.len(), 3);
    assert!(q.is_empty());
    assert_eq!(batch[0].name, "e0");
    assert_eq!(batch[2].name, "e2");
}

#[test]
fn long_queue_drains_up_to_the_cap() {
    let mut q = burst(PROCESS_MAX + 2);
    let batch = drain_step(&mut q);
    assert_eq!(batch.len(), PROCESS_MAX);
    assert_eq!(q.len(), 2);
    assert_eq!(q[0].name, format!("e{}", PROCESS_MAX));
}

#[test]
fn small_burst_gives_exactly_one_batch() {
    let mut q = burst(5);
    let batches = collect_batches(&mut q);
    assert_eq!(batches.len(), 1);
    let names: Vec<&str> = batches[0].iter().map(|e| e.name.as_str()).collect();
    assert_eq!(names, ["e0", "e1", "e2", "e3", "e4"]);
}

#[test]
fn large_burst_splits_into_ordered_batches() {
    let n = 300;
    let mut q = burst(n);
    let batches = collect_batches(&mut q);
    assert_eq!(batches.len(), (n + PROCESS_MAX - 1) / PROCESS_MAX);
    assert_eq!(batches[0].len(), PROCESS_MAX);
    assert_eq!(batches[1].len(), PROCESS_MAX);
    assert_eq!(batches[2].len(), n - 2 * PROCESS_MAX);
    let mut i = 0;
    for batch in &batches {
        for e in batch {
            assert_eq!(e.name, format!("e{}", i));
            i += 1;
        }
    }
    assert_eq!(i, n);
}

#[test]
fn empty_queue_makes_no_batch() {
    // No records before the idle timer elapsed: the cap is zero, the cycle is
    // skipped, nothing is delivered.
    assert_eq!(drain_cap(0), 0);
    let mut q: Vec<Event> = Vec::new();
    let batches = collect_batches(&mut q);
    assert!(batches.is_empty());
}

#[test]
fn failed_delivery_drops_the_batch_and_the_loop_goes_on() {
    // One cycle whose POST comes back non-2xx: the batch is discarded, never
    // retried, and the next cycle proceeds as usual.
    let mut q = burst(2);
    let cap = drain_cap(q.len());
    let batch = drain_step(&mut q);
    let body = encode_batch("k", &batch).unwrap();
    assert!(body.contains("\"event\":\"e0\""));
    // the endpoint answers with a failure; the body is simply dropped
    drop(body);
    // nothing of the batch returns to the queue
    assert!(q.is_empty());
    assert_eq!(after_cycle(batch.len(), cap), CycleEnd::DrainAgain);
    // next cycle: fresh records, same path, unaffected by the failure
    q.push(ev("later"));
    let next = drain_step(&mut q);
    assert_eq!(next.len(), 1);
    assert_eq!(next[0].name, "later");
}
