//! The logs that there are, and the choice of those that are kept.

use vstd::prelude::*;

verus! {

/// A log of the dataflow system.
#[derive(Clone, Copy, Debug, PartialEq, Eq, Structural)]
pub enum TimelyLog {
    Operates,
    Channels,
    Elapsed,
    Histogram,
    Addresses,
    Parks,
    MessagesSent,
    MessagesReceived,
}

/// A log of the arrangements.
#[derive(Clone, Copy, Debug, PartialEq, Eq, Structural)]
pub enum DifferentialLog {
    ArrangementBatches,
    ArrangementRecords,
    Sharing,
    BatcherRecords,
    BatcherSize,
    BatcherCapacity,
    BatcherAllocations,
}

/// A log.
#[derive(Clone, Copy, Debug, PartialEq, Eq, Structural)]
pub enum LogVariant {
    Timely(TimelyLog),
    Differential(DifferentialLog),
}

/// The logs of the dataflow system, in the order in which they are
/// arranged.
pub open spec fn timely_variants() -> Seq<LogVariant> {
    seq![
        LogVariant::Timely(TimelyLog::Operates),
        LogVariant::Timely(TimelyLog::Channels),
        LogVariant::Timely(TimelyLog::Elapsed),
        LogVariant::Timely(TimelyLog::Histogram),
        LogVariant::Timely(TimelyLog::Addresses),
        LogVariant::Timely(TimelyLog::Parks),
        LogVariant::Timely(TimelyLog::MessagesSent),
        LogVariant::Timely(TimelyLog::MessagesReceived),
    ]
}

/// The logs of the arrangements, in the order in which they are arranged.
pub open spec fn differential_variants() -> Seq<LogVariant> {
    seq![
        LogVariant::Differential(DifferentialLog::ArrangementBatches),
        LogVariant::Differential(DifferentialLog::ArrangementRecords),
        LogVariant::Differential(DifferentialLog::Sharing),
        LogVariant::Differential(DifferentialLog::BatcherRecords),
        LogVariant::Differential(DifferentialLog::BatcherSize),
        LogVariant::Differential(DifferentialLog::BatcherCapacity),
        LogVariant::Differential(DifferentialLog::BatcherAllocations),
    ]
}

/// Those of the first `n` of `all` that are among `active`, in the order
/// of `all`.
pub open spec fn kept(all: Seq<LogVariant>, n: int, active: Seq<LogVariant>) -> Seq<LogVariant>
    decreases n,
{
    if n <= 0 {
        Seq::empty()
    } else if active.contains(all[n - 1]) {
        kept(all, n - 1, active).push(all[n - 1])
    } else {
        kept(all, n - 1, active)
    }
}

/// Whether `variant` is among `active`.
pub fn is_active(active: &Vec<LogVariant>, variant: LogVariant) -> (b: bool)
    ensures
        b == active@.contains(variant),
{
    let mut i: usize = 0;
    while i < active.len()
        invariant
            i <= active.len(),
            forall|k: int| 0 <= k < i ==> active@[k] != variant,
        decreases active.len() - i,
    {
        if active[i] == variant {
            return true;
        }
        i = i + 1;
    }
    false
}

/// Those of `all` that are among `active`, in the order of `all`.
pub fn select_active(all: &Vec<LogVariant>, active: &Vec<LogVariant>) -> (chosen: Vec<LogVariant>)
    ensures
        chosen@ == kept(all@, all@.len() as int, active@),
{
    let mut chosen: Vec<LogVariant> = Vec::new();
    let mut i: usize = 0;
    while i < all.len()
        invariant
            i <= all.len(),
            chosen@ == kept(all@, i as int, active@),
        decreases all.len() - i,
    {
        if is_active(active, all[i]) {
            chosen.push(all[i]);
        }
        i = i + 1;
    }
    chosen
}

/// The logs of the dataflow system that are kept: those that are active,
/// in the order in which they are arranged.
pub fn timely_logs_kept(active: &Vec<LogVariant>) -> (chosen: Vec<LogVariant>)
    ensures
        chosen@ == kept(timely_variants(), 8, active@),
{
    let all = vec![
        LogVariant::Timely(TimelyLog::Operates),
        LogVariant::Timely(TimelyLog::Channels),
        LogVariant::Timely(TimelyLog::Elapsed),
        LogVariant::Timely(TimelyLog::Histogram),
        LogVariant::Timely(TimelyLog::Addresses),
        LogVariant::Timely(TimelyLog::Parks),
        LogVariant::Timely(TimelyLog::MessagesSent),
        LogVariant::Timely(TimelyLog::MessagesReceived),
    ];
    assert(all@ =~= timely_variants());
    select_active(&all, active)
}

/// The logs of the arrangements that are kept: those that are indexed,
/// in the order in which they are arranged.
pub fn differential_logs_kept(index_logs: &Vec<LogVariant>) -> (chosen: Vec<LogVariant>)
    ensures
        chosen@ == kept(differential_variants(), 7, index_logs@),
{
    let all = vec![
        LogVariant::Differential(DifferentialLog::ArrangementBatches),
        LogVariant::Differential(DifferentialLog::ArrangementRecords),
        LogVariant::Differential(DifferentialLog::Sharing),
        LogVariant::Differential(DifferentialLog::BatcherRecords),
        LogVariant::Differential(DifferentialLog::BatcherSize),
        LogVariant::Differential(DifferentialLog::BatcherCapacity),
        LogVariant::Differential(DifferentialLog::BatcherAllocations),
    ];
    assert(all@ =~= differential_variants());
    select_active(&all, index_logs)
}

} // verus!
