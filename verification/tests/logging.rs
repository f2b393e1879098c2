use sequencer::logging::differential::{
    BatchEvent, BatcherEvent, ComputeEvent, DemuxHandler, DemuxOutput, DemuxState,
    DifferentialEvent, DropEvent, MergeEvent, TraceShare, Update,
};
use sequencer::timer::{is_reported, Timer};
use std::cell::Cell;
use std::collections::BTreeMap;
use std::rc::Rc;
use std::time::{Duration, Instant};

fn handler(interval: u128, time_ns: u128) -> DemuxHandler {
    DemuxHandler {
        state: DemuxState { sharing: BTreeMap::new() },
        output: DemuxOutput::new(),
        logging_interval_ms: interval,
        time: time_ns,
    }
}

fn update(operator: usize, ts: u64, diff: i64) -> Update {
    Update { operator, ts, diff }
}

#[test]
fn timestamp_is_the_next_multiple_of_the_interval() {
    assert_eq!(handler(1000, 0).ts(), 1000);
    assert_eq!(handler(1000, 999_999_999).ts(), 1000);
    assert_eq!(handler(1000, 1_000_000_000).ts(), 2000);
    assert_eq!(handler(1, 2_500_000).ts(), 3);
    assert_eq!(handler(7, 20_999_999).ts(), 21);
    assert_eq!(handler(7, 21_000_000).ts(), 28);
}

#[test]
fn batch_counts_a_batch_and_its_records() {
    let mut h = handler(10, 5_000_000);
    let event = DifferentialEvent::Batch(BatchEvent { operator: 3, length: 40 });
    assert!(h.can_take(&event));
    h.handle(event);
    assert_eq!(h.output.batches, vec![update(3, 10, 1)]);
    assert_eq!(h.output.records, vec![update(3, 10, 40)]);
    assert_eq!(h.output.activations, vec![3]);
}

#[test]
fn merge_counts_when_it_is_done() {
    let mut h = handler(10, 5_000_000);
    let running =
        MergeEvent { operator: 3, scale: 1, length1: 10, length2: 20, complete: None };
    h.handle(DifferentialEvent::Merge(running));
    assert!(h.output.batches.is_empty());
    assert!(h.output.activations.is_empty());
    let done = MergeEvent { complete: Some(25), ..running };
    h.handle(DifferentialEvent::Merge(done));
    assert_eq!(h.output.batches, vec![update(3, 10, -1)]);
    assert_eq!(h.output.records, vec![update(3, 10, -5)]);
    assert_eq!(h.output.activations, vec![3]);
    // A merge that removes no record gives no update to the records.
    let same = MergeEvent { complete: Some(30), ..running };
    h.handle(DifferentialEvent::Merge(same));
    assert_eq!(h.output.batches.len(), 2);
    assert_eq!(h.output.records.len(), 1);
}

#[test]
fn drop_retracts_the_batch_and_its_records() {
    let mut h = handler(10, 25_000_000);
    h.handle(DifferentialEvent::Drop(DropEvent { operator: 1, length: 8 }));
    h.handle(DifferentialEvent::Drop(DropEvent { operator: 2, length: 0 }));
    assert_eq!(h.output.batches, vec![update(1, 30, -1), update(2, 30, -1)]);
    assert_eq!(h.output.records, vec![update(1, 30, -8)]);
    assert_eq!(h.output.activations, vec![1, 2]);
}

#[test]
fn last_share_gone_announces_the_drop() {
    let mut h = handler(10, 25_000_000);
    h.handle(DifferentialEvent::TraceShare(TraceShare { operator: 4, diff: 2 }));
    assert_eq!(h.state.sharing.get(&4), Some(&2));
    assert!(h.output.compute_events.is_empty());
    h.handle(DifferentialEvent::TraceShare(TraceShare { operator: 4, diff: -1 }));
    assert_eq!(h.state.sharing.get(&4), Some(&1));
    h.time = 31_000_000;
    h.handle(DifferentialEvent::TraceShare(TraceShare { operator: 4, diff: -1 }));
    assert_eq!(h.state.sharing.get(&4), None);
    assert_eq!(
        h.output.compute_events,
        vec![(31_000_000, ComputeEvent::ArrangementHeapSizeOperatorDrop { operator_id: 4 })]
    );
    assert_eq!(h.output.sharing, vec![update(4, 30, 2), update(4, 30, -1), update(4, 40, -1)]);
}

#[test]
fn batcher_changes_its_four_logs() {
    let mut h = handler(10, 0);
    let event = BatcherEvent {
        operator: 6,
        records_diff: 1,
        size_diff: -2,
        capacity_diff: 3,
        allocations_diff: -4,
    };
    h.handle(DifferentialEvent::Batcher(event));
    assert_eq!(h.output.batcher_records, vec![update(6, 10, 1)]);
    assert_eq!(h.output.batcher_size, vec![update(6, 10, -2)]);
    assert_eq!(h.output.batcher_capacity, vec![update(6, 10, 3)]);
    assert_eq!(h.output.batcher_allocations, vec![update(6, 10, -4)]);
    h.handle(DifferentialEvent::Other);
    assert_eq!(h.output.batcher_records.len(), 1);
}

#[test]
fn events_that_cannot_be_taken_are_told_apart() {
    // An event that is given to no log asks nothing of the timestamp.
    let h = handler(0, 0);
    assert!(h.can_take(&DifferentialEvent::Other));
    assert!(!h.can_take(&DifferentialEvent::Drop(DropEvent { operator: 1, length: 0 })));
    let h = handler(10, u128::MAX);
    assert!(h.can_take(&DifferentialEvent::Other));
    let running = MergeEvent { operator: 1, scale: 0, length1: 1, length2: 1, complete: None };
    assert!(h.can_take(&DifferentialEvent::Merge(running)));
    assert!(!h.can_take(&DifferentialEvent::Merge(MergeEvent { complete: Some(1), ..running })));
    let batcher = BatcherEvent {
        operator: 1,
        records_diff: 0,
        size_diff: 0,
        capacity_diff: 0,
        allocations_diff: 0,
    };
    assert!(!h.can_take(&DifferentialEvent::Batcher(batcher)));
    let h = handler(10, 0);
    assert!(!h.can_take(&DifferentialEvent::TraceShare(TraceShare { operator: 1, diff: -1 })));
    assert!(!h.can_take(&DifferentialEvent::TraceShare(TraceShare { operator: 1, diff: 0 })));
    assert!(h.can_take(&DifferentialEvent::TraceShare(TraceShare { operator: 1, diff: 1 })));
    assert!(!h.can_take(&DifferentialEvent::Batch(BatchEvent { operator: 1, length: usize::MAX })));
    let merge = MergeEvent {
        operator: 1,
        scale: 0,
        length1: usize::MAX,
        length2: 1,
        complete: Some(1),
    };
    assert!(!h.can_take(&DifferentialEvent::Merge(merge)));
    assert!(h.can_take(&DifferentialEvent::Merge(MergeEvent { complete: None, ..merge })));
}

#[test]
fn new_handler_has_seen_nothing() {
    let h = DemuxHandler::new(3_500_000);
    assert_eq!(h.logging_interval_ms, 3);
    assert_eq!(h.time, 0);
    assert!(h.state.sharing.is_empty());
    assert!(h.output.batches.is_empty());
    assert_eq!(DemuxHandler::new(10).logging_interval_ms, 1);
}

#[test]
fn timer_can_start_at_a_given_instant() {
    let seen = Rc::new(Cell::new(None));
    let sink = Rc::clone(&seen);
    let start = Instant::now();
    while start.elapsed() < Duration::from_millis(2) {}
    let timer = Timer::starting_at(start, move |d: Duration| sink.set(Some(d)));
    timer.stop();
    assert!(seen.get().expect("the span is reported") >= Duration::from_millis(2));
}

#[test]
fn spans_under_a_millisecond_are_not_reported() {
    assert!(!is_reported(0));
    assert!(is_reported(1));
    assert!(is_reported(u128::MAX));
}

#[test]
fn longer_spans_are_reported_with_their_duration() {
    let seen = Rc::new(Cell::new(None));
    let sink = Rc::clone(&seen);
    let timer = Timer::new(move |d: Duration| sink.set(Some(d)));
    let start = Instant::now();
    while start.elapsed() < Duration::from_millis(3) {}
    timer.stop();
    assert!(seen.get().expect("the span is reported") >= Duration::from_millis(3));
}
