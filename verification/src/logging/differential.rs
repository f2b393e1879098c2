//! Logging of the events of arrangements: batches, merges, drops, shared
//! traces and batchers. Each event becomes updates to the logs, at a
//! timestamp that is a multiple of the logging interval.

use crate::logging::maps::{get_one, insert_one, remove_one};
use crate::repr::Diff;
use std::collections::BTreeMap;
use vstd::prelude::*;

verus! {

/// A time of the logs, in milliseconds.
pub type Timestamp = u64;

/// A batch was made.
#[derive(Clone, Copy, Debug, PartialEq, Eq, Structural)]
pub struct BatchEvent {
    pub operator: usize,
    /// The records of the batch.
    pub length: usize,
}

/// Two batches are merged, or were.
#[derive(Clone, Copy, Debug, PartialEq, Eq, Structural)]
pub struct MergeEvent {
    pub operator: usize,
    pub scale: usize,
    /// The records of the first batch.
    pub length1: usize,
    /// The records of the second batch.
    pub length2: usize,
    /// The records of the merged batch, once the merge is done.
    pub complete: Option<usize>,
}

/// A batch was dropped.
#[derive(Clone, Copy, Debug, PartialEq, Eq, Structural)]
pub struct DropEvent {
    pub operator: usize,
    /// The records of the batch.
    pub length: usize,
}

/// A trace is shared by more or by fewer.
#[derive(Clone, Copy, Debug, PartialEq, Eq, Structural)]
pub struct TraceShare {
    pub operator: usize,
    /// By how many more.
    pub diff: isize,
}

/// A batcher has grown or shrunk.
#[derive(Clone, Copy, Debug, PartialEq, Eq, Structural)]
pub struct BatcherEvent {
    pub operator: usize,
    pub records_diff: isize,
    pub size_diff: isize,
    pub capacity_diff: isize,
    pub allocations_diff: isize,
}

/// An event of an arrangement.
#[derive(Clone, Copy, Debug, PartialEq, Eq, Structural)]
pub enum DifferentialEvent {
    Batch(BatchEvent),
    Merge(MergeEvent),
    Drop(DropEvent),
    TraceShare(TraceShare),
    Batcher(BatcherEvent),
    /// An event that the logs do not follow.
    Other,
}

/// An update to one of the logs: at the time `ts`, the count of
/// `operator` changes by `diff`.
#[derive(Clone, Copy, Debug, PartialEq, Eq, Structural)]
pub struct Update {
    pub operator: usize,
    pub ts: Timestamp,
    pub diff: Diff,
}

/// An event for the logs of compute.
#[derive(Clone, Copy, Debug, PartialEq, Eq, Structural)]
pub enum ComputeEvent {
    /// The last share of the operator's arrangement is gone.
    ArrangementHeapSizeOperatorDrop { operator_id: usize },
}

/// What the events have given to each log, oldest first.
#[derive(Debug)]
pub struct DemuxOutput {
    pub batches: Vec<Update>,
    pub records: Vec<Update>,
    pub sharing: Vec<Update>,
    pub batcher_records: Vec<Update>,
    pub batcher_size: Vec<Update>,
    pub batcher_capacity: Vec<Update>,
    pub batcher_allocations: Vec<Update>,
    /// Events for the logs of compute, each with the time of the event
    /// that caused it, in nanoseconds.
    pub compute_events: Vec<(u128, ComputeEvent)>,
    /// The operators whose arrangement size is to be measured again.
    pub activations: Vec<usize>,
}

/// What is kept between events.
#[derive(Debug)]
pub struct DemuxState {
    /// By how many each operator's trace is shared. An operator whose
    /// trace is not shared is not in the map.
    pub sharing: BTreeMap<usize, usize>,
}

/// Turns events into updates.
#[derive(Debug)]
pub struct DemuxHandler {
    pub state: DemuxState,
    pub output: DemuxOutput,
    /// The logging interval: timestamps are multiples of it.
    pub logging_interval_ms: u128,
    /// The time of the event at hand, in nanoseconds.
    pub time: u128,
}

/// The first multiple of `interval` after `time_ns` nanoseconds, in
/// milliseconds.
pub open spec fn rounded_up(time_ns: u128, interval: u128) -> int {
    ((time_ns / 1_000_000) / interval + 1) * interval
}

/// The number that shares an operator's trace.
pub open spec fn shares(sharing: Map<usize, usize>, operator: usize) -> int {
    if sharing.contains_key(operator) {
        sharing[operator] as int
    } else {
        0
    }
}

/// Whether the handler can take the event: where the event is given to
/// the logs, its timestamp fits; the lengths fit a difference; and no
/// trace is shared by fewer than nobody. A merge that is not done and an
/// event that the logs do not follow ask for nothing.
pub open spec fn takes(handler: DemuxHandler, event: DifferentialEvent) -> bool {
    match event {
        DifferentialEvent::Batch(e) => handler.ts_fits() && e.length <= i64::MAX,
        DifferentialEvent::Merge(e) => e.complete matches Some(done) ==> handler.ts_fits() && done
            <= i64::MAX && e.length1 + e.length2 <= usize::MAX && e.length1 + e.length2
            <= i64::MAX,
        DifferentialEvent::Drop(e) => handler.ts_fits() && e.length <= i64::MAX,
        DifferentialEvent::TraceShare(e) => {
            let shared = shares(handler.state.sharing@, e.operator) + e.diff;
            &&& handler.ts_fits()
            &&& e.diff != 0
            &&& shares(handler.state.sharing@, e.operator) <= i64::MAX
            &&& 0 <= shared <= usize::MAX
            &&& shared <= i64::MAX
        },
        DifferentialEvent::Batcher(_) => handler.ts_fits(),
        DifferentialEvent::Other => true,
    }
}

/// The logging interval in milliseconds, for an interval that is
/// configured in nanoseconds: its whole milliseconds, and one at least.
pub open spec fn interval_ms_of(interval_ns: u128) -> u128 {
    if interval_ns / 1_000_000 < 1 {
        1
    } else {
        interval_ns / 1_000_000
    }
}

/// The logging interval in milliseconds, for an interval that is
/// configured in nanoseconds.
pub fn logging_interval_ms(interval_ns: u128) -> (interval_ms: u128)
    ensures
        interval_ms == interval_ms_of(interval_ns),
{
    let whole = interval_ns / 1_000_000;
    if whole < 1 {
        1
    } else {
        whole
    }
}

impl DemuxOutput {
    /// Nothing given to any log.
    pub fn new() -> (output: DemuxOutput)
        ensures
            output.batches@.len() == 0,
            output.records@.len() == 0,
            output.sharing@.len() == 0,
            output.batcher_records@.len() == 0,
            output.batcher_size@.len() == 0,
            output.batcher_capacity@.len() == 0,
            output.batcher_allocations@.len() == 0,
            output.compute_events@.len() == 0,
            output.activations@.len() == 0,
    {
        DemuxOutput {
            batches: Vec::new(),
            records: Vec::new(),
            sharing: Vec::new(),
            batcher_records: Vec::new(),
            batcher_size: Vec::new(),
            batcher_capacity: Vec::new(),
            batcher_allocations: Vec::new(),
            compute_events: Vec::new(),
            activations: Vec::new(),
        }
    }
}

/// What an event gives to the logs and makes of the sharing counts.
pub struct Effect {
    pub batches: Seq<Update>,
    pub records: Seq<Update>,
    pub sharing: Seq<Update>,
    pub batcher_records: Seq<Update>,
    pub batcher_size: Seq<Update>,
    pub batcher_capacity: Seq<Update>,
    pub batcher_allocations: Seq<Update>,
    pub compute_events: Seq<(u128, ComputeEvent)>,
    pub activations: Seq<usize>,
    pub shared: Map<usize, usize>,
}

/// The effect that gives nothing and leaves the sharing counts.
pub open spec fn no_effect(shared: Map<usize, usize>) -> Effect {
    Effect {
        batches: Seq::empty(),
        records: Seq::empty(),
        sharing: Seq::empty(),
        batcher_records: Seq::empty(),
        batcher_size: Seq::empty(),
        batcher_capacity: Seq::empty(),
        batcher_allocations: Seq::empty(),
        compute_events: Seq::empty(),
        activations: Seq::empty(),
        shared,
    }
}

/// The records that a change of `diff` gives: one update, or none where
/// nothing changes.
pub open spec fn unless_zero(operator: usize, ts: Timestamp, diff: int) -> Seq<Update> {
    if diff == 0 {
        Seq::empty()
    } else {
        seq![Update { operator, ts, diff: diff as Diff }]
    }
}

/// The effect of `event` at the timestamp `ts` and the time `time`, on
/// the sharing counts `shared`.
///
/// A batch counts one batch and its records. A merge that is done counts
/// one batch less and the records that the merge removed. A drop counts
/// one batch less and the records of the batch less. Each of these has
/// the arrangement's size measured again. A share changes the sharing
/// count; the operator whose count comes to nothing leaves the counts and
/// its drop is announced. A batcher changes its four logs.
pub open spec fn effect_of(
    event: DifferentialEvent,
    ts: Timestamp,
    time: u128,
    shared: Map<usize, usize>,
) -> Effect {
    let none = no_effect(shared);
    match event {
        DifferentialEvent::Batch(e) => Effect {
            batches: seq![Update { operator: e.operator, ts, diff: 1 }],
            records: seq![Update { operator: e.operator, ts, diff: e.length as Diff }],
            activations: seq![e.operator],
            ..none
        },
        DifferentialEvent::Merge(e) => match e.complete {
            Some(done) => Effect {
                batches: seq![Update { operator: e.operator, ts, diff: (-1int) as Diff }],
                records: unless_zero(e.operator, ts, done - (e.length1 + e.length2)),
                activations: seq![e.operator],
                ..none
            },
            None => none,
        },
        DifferentialEvent::Drop(e) => Effect {
            batches: seq![Update { operator: e.operator, ts, diff: (-1int) as Diff }],
            records: unless_zero(e.operator, ts, -(e.length as int)),
            activations: seq![e.operator],
            ..none
        },
        DifferentialEvent::TraceShare(e) => {
            let now_shared = shares(shared, e.operator) + e.diff;
            Effect {
                sharing: seq![Update { operator: e.operator, ts, diff: e.diff as Diff }],
                compute_events: if now_shared == 0 {
                    seq![
                        (
                            time,
                            ComputeEvent::ArrangementHeapSizeOperatorDrop { operator_id: e.operator },
                        ),
                    ]
                } else {
                    Seq::empty()
                },
                shared: if now_shared == 0 {
                    shared.remove(e.operator)
                } else {
                    shared.insert(e.operator, now_shared as usize)
                },
                ..none
            }
        },
        DifferentialEvent::Batcher(e) => Effect {
            batcher_records: seq![Update { operator: e.operator, ts, diff: e.records_diff as Diff }],
            batcher_size: seq![Update { operator: e.operator, ts, diff: e.size_diff as Diff }],
            batcher_capacity: seq![
                Update { operator: e.operator, ts, diff: e.capacity_diff as Diff },
            ],
            batcher_allocations: seq![
                Update { operator: e.operator, ts, diff: e.allocations_diff as Diff },
            ],
            ..none
        },
        DifferentialEvent::Other => none,
    }
}

/// Whether `after` is `before` with `effect` applied: what the effect
/// gives stands at the end of each log.
pub open spec fn applied(before: DemuxHandler, effect: Effect, after: DemuxHandler) -> bool {
    &&& after.logging_interval_ms == before.logging_interval_ms
    &&& after.time == before.time
    &&& after.state.sharing@ =~= effect.shared
    &&& after.output.batches@ =~= before.output.batches@ + effect.batches
    &&& after.output.records@ =~= before.output.records@ + effect.records
    &&& after.output.sharing@ =~= before.output.sharing@ + effect.sharing
    &&& after.output.batcher_records@ =~= before.output.batcher_records@ + effect.batcher_records
    &&& after.output.batcher_size@ =~= before.output.batcher_size@ + effect.batcher_size
    &&& after.output.batcher_capacity@ =~= before.output.batcher_capacity@
        + effect.batcher_capacity
    &&& after.output.batcher_allocations@ =~= before.output.batcher_allocations@
        + effect.batcher_allocations
    &&& after.output.compute_events@ =~= before.output.compute_events@ + effect.compute_events
    &&& after.output.activations@ =~= before.output.activations@ + effect.activations
}

impl DemuxHandler {
    /// A handler that has seen no event, for a logging interval that is
    /// configured in nanoseconds.
    pub fn new(interval_ns: u128) -> (handler: DemuxHandler)
        ensures
            handler.logging_interval_ms == interval_ms_of(interval_ns),
            handler.time == 0,
            handler.state.sharing@ == Map::<usize, usize>::empty(),
            handler.output.batches@.len() == 0,
            handler.output.records@.len() == 0,
            handler.output.sharing@.len() == 0,
            handler.output.batcher_records@.len() == 0,
            handler.output.batcher_size@.len() == 0,
            handler.output.batcher_capacity@.len() == 0,
            handler.output.batcher_allocations@.len() == 0,
            handler.output.compute_events@.len() == 0,
            handler.output.activations@.len() == 0,
    {
        DemuxHandler {
            state: DemuxState { sharing: BTreeMap::new() },
            output: DemuxOutput::new(),
            logging_interval_ms: logging_interval_ms(interval_ns),
            time: 0,
        }
    }

    /// Whether the timestamp of the event at hand fits the logs.
    pub open spec fn ts_fits(&self) -> bool {
        self.logging_interval_ms >= 1 && rounded_up(self.time, self.logging_interval_ms) <= u64::MAX
    }

    /// The timestamp of the event at hand.
    pub open spec fn ts_spec(&self) -> Timestamp {
        rounded_up(self.time, self.logging_interval_ms) as Timestamp
    }

    /// The timestamp of the event at hand: the first multiple of the
    /// logging interval after the time of the event.
    pub fn ts(&self) -> (ts: Timestamp)
        requires
            self.ts_fits(),
        ensures
            ts == rounded_up(self.time, self.logging_interval_ms),
    {
        let time_ms = self.time / 1_000_000;
        let interval = self.logging_interval_ms;
        assert(time_ms / interval + 1 <= (time_ms / interval + 1) * interval) by (nonlinear_arith)
            requires
                interval >= 1,
        ;
        let rounded = (time_ms / interval + 1) * interval;
        rounded as Timestamp
    }

    /// Has the arrangement size of `operator` measured again.
    fn notify_arrangement_size(&mut self, operator: usize)
        ensures
            final(self).output.activations@ == old(self).output.activations@.push(operator),
            applied(
                *old(self),
                Effect { activations: seq![operator], ..no_effect(old(self).state.sharing@) },
                *final(self),
            ),
    {
        self.output.activations.push(operator);
    }

    /// Whether the handler can take the event.
    pub fn can_take(&self, event: &DifferentialEvent) -> (b: bool)
        ensures
            b == takes(*self, *event),
    {
        let fits = if self.logging_interval_ms < 1 {
            false
        } else {
            let time_ms = self.time / 1_000_000;
            let interval = self.logging_interval_ms;
            let periods = time_ms / interval + 1;
            match periods.checked_mul(interval) {
                Some(rounded) => rounded <= u64::MAX as u128,
                None => false,
            }
        };
        match event {
            DifferentialEvent::Batch(e) => fits && e.length as u128 <= i64::MAX as u128,
            DifferentialEvent::Merge(e) => match e.complete {
                Some(done) => fits && done as u128 <= i64::MAX as u128 && e.length1 as u128
                    + e.length2 as u128 <= usize::MAX as u128 && e.length1 as u128
                    + e.length2 as u128 <= i64::MAX as u128,
                None => true,
            },
            DifferentialEvent::Drop(e) => fits && e.length as u128 <= i64::MAX as u128,
            DifferentialEvent::TraceShare(e) => {
                let shared = shared_by(&self.state, e.operator);
                let now_shared = shared as i128 + e.diff as i128;
                fits && e.diff != 0 && shared as u128 <= i64::MAX as u128 && 0 <= now_shared
                    && now_shared <= usize::MAX as i128 && now_shared <= i64::MAX as i128
            },
            DifferentialEvent::Batcher(_) => fits,
            DifferentialEvent::Other => true,
        }
    }

    /// Takes an event: its effect stands at the end of the logs.
    pub fn handle(&mut self, event: DifferentialEvent)
        requires
            takes(*old(self), event),
        ensures
            applied(
                *old(self),
                effect_of(event, old(self).ts_spec(), old(self).time, old(self).state.sharing@),
                *final(self),
            ),
    {
        match event {
            DifferentialEvent::Batch(e) => self.handle_batch(e),
            DifferentialEvent::Merge(e) => self.handle_merge(e),
            DifferentialEvent::Drop(e) => self.handle_drop(e),
            DifferentialEvent::TraceShare(e) => self.handle_trace_share(e),
            DifferentialEvent::Batcher(e) => self.handle_batcher_event(e),
            DifferentialEvent::Other => (),
        }
    }

    fn handle_batch(&mut self, event: BatchEvent)
        requires
            takes(*old(self), DifferentialEvent::Batch(event)),
        ensures
            applied(
                *old(self),
                effect_of(
                    DifferentialEvent::Batch(event),
                    old(self).ts_spec(),
                    old(self).time,
                    old(self).state.sharing@,
                ),
                *final(self),
            ),
    {
        let ts = self.ts();
        let operator = event.operator;
        self.output.batches.push(Update { operator, ts, diff: 1 });
        let diff = event.length as Diff;
        self.output.records.push(Update { operator, ts, diff });
        self.notify_arrangement_size(operator);
    }

    fn handle_merge(&mut self, event: MergeEvent)
        requires
            takes(*old(self), DifferentialEvent::Merge(event)),
        ensures
            applied(
                *old(self),
                effect_of(
                    DifferentialEvent::Merge(event),
                    old(self).ts_spec(),
                    old(self).time,
                    old(self).state.sharing@,
                ),
                *final(self),
            ),
    {
        let done = match event.complete {
            Some(done) => done,
            None => {
                return ;
            },
        };
        let ts = self.ts();
        let operator = event.operator;
        self.output.batches.push(Update { operator, ts, diff: -1 });
        let diff = done as Diff - (event.length1 + event.length2) as Diff;
        if diff != 0 {
            self.output.records.push(Update { operator, ts, diff });
        }
        self.notify_arrangement_size(operator);
    }

    fn handle_drop(&mut self, event: DropEvent)
        requires
            takes(*old(self), DifferentialEvent::Drop(event)),
        ensures
            applied(
                *old(self),
                effect_of(
                    DifferentialEvent::Drop(event),
                    old(self).ts_spec(),
                    old(self).time,
                    old(self).state.sharing@,
                ),
                *final(self),
            ),
    {
        let ts = self.ts();
        let operator = event.operator;
        self.output.batches.push(Update { operator, ts, diff: -1 });
        let diff = -(event.length as Diff);
        if diff != 0 {
            self.output.records.push(Update { operator, ts, diff });
        }
        self.notify_arrangement_size(operator);
    }

    fn handle_trace_share(&mut self, event: TraceShare)
        requires
            takes(*old(self), DifferentialEvent::TraceShare(event)),
        ensures
            applied(
                *old(self),
                effect_of(
                    DifferentialEvent::TraceShare(event),
                    old(self).ts_spec(),
                    old(self).time,
                    old(self).state.sharing@,
                ),
                *final(self),
            ),
    {
        let ts = self.ts();
        let operator = event.operator;
        let diff = event.diff as Diff;
        self.output.sharing.push(Update { operator, ts, diff });
        let shared = shared_by(&self.state, operator);
        let now_shared = (shared as i64 + diff) as usize;
        set_shared(&mut self.state, operator, now_shared);
        if now_shared == 0 {
            self.output.compute_events.push(
                (self.time, ComputeEvent::ArrangementHeapSizeOperatorDrop { operator_id: operator }),
            );
        }
    }

    fn handle_batcher_event(&mut self, event: BatcherEvent)
        requires
            takes(*old(self), DifferentialEvent::Batcher(event)),
        ensures
            applied(
                *old(self),
                effect_of(
                    DifferentialEvent::Batcher(event),
                    old(self).ts_spec(),
                    old(self).time,
                    old(self).state.sharing@,
                ),
                *final(self),
            ),
    {
        let ts = self.ts();
        let operator = event.operator;
        self.output.batcher_records.push(Update { operator, ts, diff: event.records_diff as Diff });
        self.output.batcher_size.push(Update { operator, ts, diff: event.size_diff as Diff });
        self.output.batcher_capacity.push(
            Update { operator, ts, diff: event.capacity_diff as Diff },
        );
        self.output.batcher_allocations.push(
            Update { operator, ts, diff: event.allocations_diff as Diff },
        );
    }
}

/// The number that shares the operator's trace.
fn shared_by(state: &DemuxState, operator: usize) -> (n: usize)
    ensures
        n == shares(state.sharing@, operator),
{
    match get_one(&state.sharing, operator) {
        Some(n) => *n,
        None => 0,
    }
}

/// Records that `n` share the operator's trace. An operator whose trace
/// nobody shares leaves the counts.
fn set_shared(state: &mut DemuxState, operator: usize, n: usize)
    ensures
        final(state).sharing@ == if n == 0 {
            old(state).sharing@.remove(operator)
        } else {
            old(state).sharing@.insert(operator, n)
        },
{
    if n == 0 {
        let _ = remove_one(&mut state.sharing, operator);
    } else {
        let _ = insert_one(&mut state.sharing, operator, n);
    }
}

} // verus!
