//! Logging of the events of the dataflow system itself: operators and
//! channels as they come and go, parked workers, messages and schedules.
//! What an operator or a channel has given to the logs is kept, so that it
//! can be taken back when the operator or its dataflow shuts down.

use crate::logging::differential::Timestamp;
use crate::logging::maps::{get_one, get_pair, insert_one, insert_pair, remove_one, remove_pair};
use crate::repr::Diff;
use std::collections::BTreeMap;
use vstd::arithmetic::power2::{lemma2_to64, lemma_pow2_strictly_increases, pow2};
use vstd::prelude::*;

verus! {

/// The number of buckets of a histogram of schedules: one for each power
/// of two that fits a difference.
pub const HISTOGRAM_BUCKETS: usize = 64;

/// An operator was built.
#[derive(Debug, PartialEq, Eq)]
pub struct OperatesEvent {
    pub id: usize,
    /// The address of the operator: the path from the dataflow down.
    pub addr: Vec<usize>,
    pub name: String,
    /// The hash of the address.
    pub addr_hash: u64,
}

/// A channel was built.
#[derive(Debug, PartialEq, Eq)]
pub struct ChannelsEvent {
    pub id: usize,
    /// The address of the scope that holds the channel. Its first entry is
    /// the dataflow.
    pub scope_addr: Vec<usize>,
    /// The operator and port that the channel leaves.
    pub source: (usize, usize),
    /// The operator and port that the channel enters.
    pub target: (usize, usize),
    /// The hash of the address.
    pub scope_addr_hash: u64,
}

/// A worker parks, for at most the time given in nanoseconds, or wakes.
#[derive(Clone, Copy, Debug, PartialEq, Eq, Structural)]
pub enum ParkEvent {
    Park(Option<u128>),
    Unpark,
}

/// Messages went over a channel.
#[derive(Clone, Copy, Debug, PartialEq, Eq, Structural)]
pub struct MessagesEvent {
    /// Whether they were sent; else they were received.
    pub is_send: bool,
    pub channel: usize,
    /// The worker that sent them.
    pub source: usize,
    /// The worker that received them.
    pub target: usize,
    /// How many.
    pub length: usize,
}

/// An operator starts to run or stops.
#[derive(Clone, Copy, Debug, PartialEq, Eq, Structural)]
pub enum StartStop {
    Start,
    Stop,
}

/// An event of the dataflow system.
#[derive(Debug, PartialEq, Eq)]
pub enum TimelyEvent {
    Operates(OperatesEvent),
    Channels(ChannelsEvent),
    /// The operator of this identifier shut down.
    Shutdown { id: usize },
    Park(ParkEvent),
    Messages(MessagesEvent),
    /// The operator of this identifier starts to run or stops.
    Schedule { id: usize, start_stop: StartStop },
    /// An event that the logs do not follow.
    Other,
}

/// An update to a log: at the time `ts`, the count of `datum` changes by
/// `diff`.
#[derive(Debug, PartialEq, Eq)]
pub struct Logged<T> {
    pub datum: T,
    pub ts: Timestamp,
    pub diff: Diff,
}

/// An operator of a worker, by name.
#[derive(Debug, PartialEq, Eq)]
pub struct OperatesRecord {
    pub id: usize,
    pub worker: usize,
    pub name: String,
}

/// A channel of a worker, with its ends.
#[derive(Clone, Copy, Debug, PartialEq, Eq, Structural)]
pub struct ChannelsRecord {
    pub id: usize,
    pub worker: usize,
    pub source_node: usize,
    pub source_port: usize,
    pub target_node: usize,
    pub target_port: usize,
}

/// The address of an operator or a channel of a worker.
#[derive(Debug, PartialEq, Eq)]
pub struct AddressRecord {
    pub id: i64,
    pub worker: i64,
    pub addr: Vec<usize>,
}

/// The hash of the address of an operator or a channel, by which it is
/// tested that each has one address.
#[derive(Clone, Copy, Debug, PartialEq, Eq, Structural)]
pub struct AddressValidation {
    pub id: usize,
    pub hash: u64,
}

/// A worker parked for a time. Both times are rounded up to a power of
/// two, in nanoseconds.
#[derive(Clone, Copy, Debug, PartialEq, Eq, Structural)]
pub struct ParkRecord {
    pub worker: usize,
    pub duration_pow: i64,
    pub requested_pow: Option<u128>,
}

/// Messages of a channel between a worker and a peer.
#[derive(Clone, Copy, Debug, PartialEq, Eq, Structural)]
pub struct MessagesRecord {
    pub channel: usize,
    pub worker: usize,
    pub peer: usize,
}

/// An operator of a worker.
#[derive(Clone, Copy, Debug, PartialEq, Eq, Structural)]
pub struct ScheduleRecord {
    pub id: usize,
    pub worker: usize,
}

/// A run of an operator of a worker that took a time which, rounded up to
/// a power of two, is `pow` nanoseconds.
#[derive(Clone, Copy, Debug, PartialEq, Eq, Structural)]
pub struct HistogramRecord {
    pub id: usize,
    pub worker: usize,
    pub pow: u128,
}

/// What the events have given to each log, oldest first.
#[derive(Debug)]
pub struct TimelyOutput {
    pub operates: Vec<Logged<OperatesRecord>>,
    pub channels: Vec<Logged<ChannelsRecord>>,
    pub addresses: Vec<Logged<AddressRecord>>,
    pub address_validation: Vec<Logged<AddressValidation>>,
    pub parks: Vec<Logged<ParkRecord>>,
    pub messages_sent: Vec<Logged<MessagesRecord>>,
    pub messages_received: Vec<Logged<MessagesRecord>>,
    pub schedules_duration: Vec<Logged<ScheduleRecord>>,
    pub schedules_histogram: Vec<Logged<HistogramRecord>>,
}

/// The powers of two at the ends of the integers.
pub proof fn lemma_pow2_ends()
    ensures
        pow2(0) == 1,
        pow2(62) == 0x4000_0000_0000_0000,
        pow2(63) == 0x8000_0000_0000_0000,
        pow2(127) == 0x8000_0000_0000_0000_0000_0000_0000_0000,
{
    lemma2_to64();
    vstd::arithmetic::power2::lemma_pow2_adds(32, 30);
    vstd::arithmetic::power2::lemma_pow2_adds(32, 31);
    vstd::arithmetic::power2::lemma_pow2_adds(64, 63);
}

/// Whether `2^exponent` is the smallest power of two that is no less than
/// `x`.
pub open spec fn is_next_power_of_two(x: u128, exponent: nat) -> bool {
    &&& x <= pow2(exponent)
    &&& exponent > 0 ==> pow2((exponent - 1) as nat) < x
}

/// There is one such power.
pub proof fn lemma_next_power_unique(x: u128, e1: nat, e2: nat)
    requires
        is_next_power_of_two(x, e1),
        is_next_power_of_two(x, e2),
    ensures
        e1 == e2,
{
    if e1 < e2 {
        if e1 < e2 - 1 {
            lemma_pow2_strictly_increases(e1, (e2 - 1) as nat);
        }
    } else if e2 < e1 {
        if e2 < e1 - 1 {
            lemma_pow2_strictly_increases(e2, (e1 - 1) as nat);
        }
    }
}

/// The exponent of the smallest power of two that is no less than `x`.
pub open spec fn next_power_exponent(x: u128) -> nat {
    choose|e: nat| is_next_power_of_two(x, e)
}

/// The smallest power of two that is no less than `x`.
pub open spec fn next_power(x: u128) -> nat {
    pow2(next_power_exponent(x))
}

/// A number that fits a difference has its next power of two among the
/// first sixty-four.
pub proof fn lemma_next_power_of_difference(x: u128, e: nat)
    requires
        x <= i64::MAX,
        is_next_power_of_two(x, e),
    ensures
        e <= 63,
{
    lemma_pow2_ends();
    if e > 64 {
        lemma_pow2_strictly_increases(63, (e - 1) as nat);
    }
}

/// The smallest power of two that is no less than `x`, and its exponent;
/// `None` where the power does not fit.
pub fn next_power_of_two(x: u128) -> (r: Option<(u128, u32)>)
    ensures
        match r {
            Some((pow, exponent)) => pow == next_power(x) && exponent == next_power_exponent(x)
                && exponent <= 127 && is_next_power_of_two(x, exponent as nat),
            None => pow2(127) < x && next_power(x) > u128::MAX,
        },
{
    let mut pow: u128 = 1;
    let mut exponent: u32 = 0;
    proof {
        lemma_pow2_ends();
    }
    while pow < x
        invariant
            pow == pow2(exponent as nat),
            exponent <= 127,
            exponent > 0 ==> pow2((exponent - 1) as nat) < x,
        decreases 127 - exponent,
    {
        if exponent == 127 {
            proof {
                lemma_pow2_ends();
                vstd::arithmetic::power2::lemma_pow2_unfold(128);
                assert(is_next_power_of_two(x, 128));
                lemma_next_power_unique(x, 128, next_power_exponent(x));
            }
            return None;
        }
        proof {
            lemma_pow2_ends();
            vstd::arithmetic::power2::lemma_pow2_unfold((exponent + 1) as nat);
            if exponent + 1 < 127 {
                lemma_pow2_strictly_increases((exponent + 1) as nat, 127);
            }
        }
        pow = pow * 2;
        exponent = exponent + 1;
    }
    proof {
        assert(is_next_power_of_two(x, exponent as nat));
        lemma_next_power_unique(x, exponent as nat, next_power_exponent(x));
    }
    Some((pow, exponent))
}

/// What is kept between events.
#[derive(Debug)]
pub struct TimelyState {
    /// The operators that run, by identifier and worker.
    pub operates_data: BTreeMap<(usize, usize), OperatesEvent>,
    /// The channels of each dataflow, by dataflow and worker, oldest
    /// first.
    pub channels_data: BTreeMap<(usize, usize), Vec<ChannelsEvent>>,
    /// The workers that are parked: since when, in nanoseconds, and for
    /// at most how long.
    pub parks_data: BTreeMap<usize, (u128, Option<u128>)>,
    /// The operators that are running, by worker and identifier: since
    /// when, in nanoseconds.
    pub schedules_stash: BTreeMap<(usize, usize), u128>,
    /// The messages sent, by channel and sending worker: one count for
    /// each receiving worker.
    pub messages_sent_data: BTreeMap<(usize, usize), Vec<Diff>>,
    /// The messages received, by channel and receiving worker: one count
    /// for each sending worker.
    pub messages_received_data: BTreeMap<(usize, usize), Vec<Diff>>,
    /// The runs of each operator, by identifier and worker: for each
    /// power of two, the number of runs that took so long and the time
    /// that they took together, in nanoseconds.
    pub schedules_data: BTreeMap<(usize, usize), Vec<(i64, Diff)>>,
}

/// Turns events into updates, given that the counts that are kept have
/// their sizes.
#[derive(Debug)]
pub struct TimelyHandler {
    pub state: TimelyState,
    pub output: TimelyOutput,
    /// The granularity of the logs: timestamps are multiples of it.
    pub granularity_ms: u64,
    /// The number of workers.
    pub peers: usize,
}

/// The first multiple of `granularity` after `time_ns` nanoseconds, in
/// milliseconds. The milliseconds are cut to the size of a timestamp
/// first.
pub open spec fn rounded_up(time_ns: u128, granularity: u64) -> int {
    (((time_ns / 1_000_000) as u64) / granularity + 1) * granularity
}

/// The granularity of the logs in milliseconds, for a granularity that
/// is configured in nanoseconds: its whole milliseconds, and one at
/// least, cut to the size of a timestamp.
pub open spec fn granularity_ms_of(granularity_ns: u128) -> Timestamp {
    if granularity_ns / 1_000_000 < 1 {
        1
    } else {
        (granularity_ns / 1_000_000) as Timestamp
    }
}

/// The granularity of the logs in milliseconds, for a granularity that
/// is configured in nanoseconds.
pub fn granularity_ms(granularity_ns: u128) -> (granularity: Timestamp)
    ensures
        granularity == granularity_ms_of(granularity_ns),
{
    let whole = granularity_ns / 1_000_000;
    if whole < 1 {
        1
    } else {
        #[verifier::truncate]
        (whole as Timestamp)
    }
}

/// An address as the logs hold it: identifier and worker as signed
/// integers, and the path.
pub struct Address {
    pub id: i64,
    pub worker: i64,
    pub addr: Seq<usize>,
    pub ts: Timestamp,
    pub diff: Diff,
}

/// The addresses that were given to the log.
pub open spec fn addresses_of(log: Seq<Logged<AddressRecord>>) -> Seq<Address> {
    log.map_values(
        |l: Logged<AddressRecord>|
            Address {
                id: l.datum.id,
                worker: l.datum.worker,
                addr: l.datum.addr@,
                ts: l.ts,
                diff: l.diff,
            },
    )
}

impl TimelyOutput {
    /// Nothing given to any log.
    pub fn new() -> (output: TimelyOutput)
        ensures
            output.operates@.len() == 0,
            output.channels@.len() == 0,
            output.addresses@.len() == 0,
            output.address_validation@.len() == 0,
            output.parks@.len() == 0,
            output.messages_sent@.len() == 0,
            output.messages_received@.len() == 0,
            output.schedules_duration@.len() == 0,
            output.schedules_histogram@.len() == 0,
    {
        TimelyOutput {
            operates: Vec::new(),
            channels: Vec::new(),
            addresses: Vec::new(),
            address_validation: Vec::new(),
            parks: Vec::new(),
            messages_sent: Vec::new(),
            messages_received: Vec::new(),
            schedules_duration: Vec::new(),
            schedules_histogram: Vec::new(),
        }
    }

    /// Whether `after` holds what this holds in every log but those that
    /// `touched` names.
    pub open spec fn unchanged_but(&self, after: TimelyOutput, touched: Logs) -> bool {
        &&& touched.operates || after.operates == self.operates
        &&& touched.channels || after.channels == self.channels
        &&& touched.addresses || after.addresses == self.addresses
        &&& touched.address_validation || after.address_validation == self.address_validation
        &&& touched.parks || after.parks == self.parks
        &&& touched.messages_sent || after.messages_sent == self.messages_sent
        &&& touched.messages_received || after.messages_received == self.messages_received
        &&& touched.schedules_duration || after.schedules_duration == self.schedules_duration
        &&& touched.schedules_histogram || after.schedules_histogram == self.schedules_histogram
    }
}

/// Some of the logs.
pub struct Logs {
    pub operates: bool,
    pub channels: bool,
    pub addresses: bool,
    pub address_validation: bool,
    pub parks: bool,
    pub messages_sent: bool,
    pub messages_received: bool,
    pub schedules_duration: bool,
    pub schedules_histogram: bool,
}

/// None of the logs.
pub open spec fn no_logs() -> Logs {
    Logs {
        operates: false,
        channels: false,
        addresses: false,
        address_validation: false,
        parks: false,
        messages_sent: false,
        messages_received: false,
        schedules_duration: false,
        schedules_histogram: false,
    }
}

/// Some of what is kept between events.
pub struct Kept {
    pub operates_data: bool,
    pub channels_data: bool,
    pub parks_data: bool,
    pub schedules_stash: bool,
    pub messages_sent_data: bool,
    pub messages_received_data: bool,
    pub schedules_data: bool,
}

/// Nothing of what is kept.
pub open spec fn nothing_kept() -> Kept {
    Kept {
        operates_data: false,
        channels_data: false,
        parks_data: false,
        schedules_stash: false,
        messages_sent_data: false,
        messages_received_data: false,
        schedules_data: false,
    }
}

/// Counts of messages: one for each worker, none negative.
pub open spec fn message_counts(counts: Seq<Diff>, peers: usize) -> bool {
    &&& counts.len() == peers
    &&& forall|i: int| 0 <= i < counts.len() ==> #[trigger] counts[i] >= 0
}

/// The buckets of a histogram: one for each power of two, each with a
/// count and a time that are not negative.
pub open spec fn histogram(buckets: Seq<(i64, Diff)>) -> bool {
    &&& buckets.len() == HISTOGRAM_BUCKETS
    &&& forall|i: int|
        0 <= i < buckets.len() ==> (#[trigger] buckets[i]).0 >= 0 && buckets[i].1 >= 0
}

impl TimelyState {
    /// Whether the counts that are kept have their sizes: one count of
    /// messages for each of `peers` workers, and one bucket of schedules
    /// for each power of two.
    pub open spec fn well_formed(&self, peers: usize) -> bool {
        &&& forall|k: (usize, usize)| #[trigger]
            self.messages_sent_data@.contains_key(k) ==> message_counts(
                self.messages_sent_data@[k]@,
                peers,
            )
        &&& forall|k: (usize, usize)| #[trigger]
            self.messages_received_data@.contains_key(k) ==> message_counts(
                self.messages_received_data@[k]@,
                peers,
            )
        &&& forall|k: (usize, usize)| #[trigger]
            self.schedules_data@.contains_key(k) ==> histogram(self.schedules_data@[k]@)
    }

    /// Nothing kept.
    pub fn new() -> (state: TimelyState)
        ensures
            state.operates_data@ == Map::<(usize, usize), OperatesEvent>::empty(),
            state.channels_data@ == Map::<(usize, usize), Vec<ChannelsEvent>>::empty(),
            state.parks_data@ == Map::<usize, (u128, Option<u128>)>::empty(),
            state.schedules_stash@ == Map::<(usize, usize), u128>::empty(),
            state.messages_sent_data@ == Map::<(usize, usize), Vec<Diff>>::empty(),
            state.messages_received_data@ == Map::<(usize, usize), Vec<Diff>>::empty(),
            state.schedules_data@ == Map::<(usize, usize), Vec<(i64, Diff)>>::empty(),
    {
        TimelyState {
            operates_data: BTreeMap::new(),
            channels_data: BTreeMap::new(),
            parks_data: BTreeMap::new(),
            schedules_stash: BTreeMap::new(),
            messages_sent_data: BTreeMap::new(),
            messages_received_data: BTreeMap::new(),
            schedules_data: BTreeMap::new(),
        }
    }

    /// Whether `after` keeps what this keeps but for the parts that
    /// `touched` names.
    pub open spec fn unchanged_but(&self, after: TimelyState, touched: Kept) -> bool {
        &&& touched.operates_data || after.operates_data@ == self.operates_data@
        &&& touched.channels_data || after.channels_data@ == self.channels_data@
        &&& touched.parks_data || after.parks_data@ == self.parks_data@
        &&& touched.schedules_stash || after.schedules_stash@ == self.schedules_stash@
        &&& touched.messages_sent_data || after.messages_sent_data@ == self.messages_sent_data@
        &&& touched.messages_received_data || after.messages_received_data@
            == self.messages_received_data@
        &&& touched.schedules_data || after.schedules_data@ == self.schedules_data@
    }
}

/// A copy of an address.
pub fn clone_addr(addr: &Vec<usize>) -> (copy: Vec<usize>)
    ensures
        copy@ == addr@,
{
    let mut copy: Vec<usize> = Vec::new();
    let mut i: usize = 0;
    while i < addr.len()
        invariant
            i <= addr.len(),
            copy@ == addr@.take(i as int),
        decreases addr.len() - i,
    {
        copy.push(addr[i]);
        assert(addr@.take(i + 1) =~= addr@.take(i as int).push(addr@[i as int]));
        i = i + 1;
    }
    assert(addr@.take(addr.len() as int) =~= addr@);
    copy
}

impl TimelyHandler {
    /// A demux that has seen no event: nothing is kept and nothing is
    /// given to any log.
    pub fn new(granularity_ms: u64, peers: usize) -> (demux: TimelyHandler)
        ensures
            demux.granularity_ms == granularity_ms,
            demux.peers == peers,
            demux.state.well_formed(peers),
            demux.state.operates_data@ == Map::<(usize, usize), OperatesEvent>::empty(),
            demux.state.channels_data@ == Map::<(usize, usize), Vec<ChannelsEvent>>::empty(),
            demux.state.parks_data@ == Map::<usize, (u128, Option<u128>)>::empty(),
            demux.state.schedules_stash@ == Map::<(usize, usize), u128>::empty(),
            demux.state.messages_sent_data@ == Map::<(usize, usize), Vec<Diff>>::empty(),
            demux.state.messages_received_data@ == Map::<(usize, usize), Vec<Diff>>::empty(),
            demux.state.schedules_data@ == Map::<(usize, usize), Vec<(i64, Diff)>>::empty(),
            demux.output.operates@.len() == 0,
            demux.output.channels@.len() == 0,
            demux.output.addresses@.len() == 0,
            demux.output.address_validation@.len() == 0,
            demux.output.parks@.len() == 0,
            demux.output.messages_sent@.len() == 0,
            demux.output.messages_received@.len() == 0,
            demux.output.schedules_duration@.len() == 0,
            demux.output.schedules_histogram@.len() == 0,
    {
        TimelyHandler { state: TimelyState::new(), output: TimelyOutput::new(), granularity_ms, peers }
    }

    /// Whether the timestamp of an event at `time_ns` fits the logs.
    pub open spec fn ts_fits(&self, time_ns: u128) -> bool {
        self.granularity_ms >= 1 && rounded_up(time_ns, self.granularity_ms) <= u64::MAX
    }

    /// The timestamp of an event at `time_ns`: the first multiple of the
    /// granularity after it.
    pub fn ts(&self, time_ns: u128) -> (ts: Timestamp)
        requires
            self.ts_fits(time_ns),
        ensures
            ts == rounded_up(time_ns, self.granularity_ms),
    {
        let time_ms = #[verifier::truncate]
        ((time_ns / 1_000_000) as u64);
        let granularity = self.granularity_ms;
        assert(time_ms / granularity + 1 <= (time_ms / granularity + 1) * granularity)
            by (nonlinear_arith)
            requires
                granularity >= 1,
        ;
        (time_ms / granularity + 1) * granularity
    }

    /// Gives the address of an operator or a channel to the logs.
    fn give_address(&mut self, id: usize, worker: usize, addr: Vec<usize>, hash: u64, ts: Timestamp, diff: Diff)
        ensures
            final(self).state == old(self).state,
            final(self).granularity_ms == old(self).granularity_ms,
            final(self).peers == old(self).peers,
            final(self).output.address_validation@ == old(self).output.address_validation@.push(
                Logged { datum: AddressValidation { id, hash }, ts, diff: 1 },
            ),
            addresses_of(final(self).output.addresses@) == addresses_of(
                old(self).output.addresses@,
            ).push(Address { id: id as i64, worker: worker as i64, addr: addr@, ts, diff }),
            old(self).output.unchanged_but(
                final(self).output,
                Logs { address_validation: true, addresses: true, ..no_logs() },
            ),
    {
        self.output.address_validation.push(
            Logged { datum: AddressValidation { id, hash }, ts, diff: 1 },
        );
        let record = AddressRecord {
            id: #[verifier::truncate]
            (id as i64),
            worker: #[verifier::truncate]
            (worker as i64),
            addr,
        };
        self.output.addresses.push(Logged { datum: record, ts, diff });
        assert(addresses_of(self.output.addresses@) =~= addresses_of(
            old(self).output.addresses@,
        ).push(Address { id: id as i64, worker: worker as i64, addr: addr@, ts, diff }));
    }

    /// An operator was built: it is kept, and its name and address are
    /// given to the logs.
    fn handle_operates(&mut self, ts: Timestamp, worker: usize, event: OperatesEvent)
        ensures
            operates_logged(*old(self), *final(self), ts, worker, event),
    {
        let id = event.id;
        let hash = event.addr_hash;
        self.output.operates.push(
            Logged { datum: OperatesRecord { id, worker, name: event.name.clone() }, ts, diff: 1 },
        );
        let addr = clone_addr(&event.addr);
        // The operator is kept, so that what it gave can be taken back
        // when it shuts down.
        let _ = insert_pair(&mut self.state.operates_data, (id, worker), event);
        self.give_address(id, worker, addr, hash, ts, 1);
    }
}


/// As many zeros as there are workers.
fn no_messages(peers: usize) -> (counts: Vec<Diff>)
    ensures
        counts@ == Seq::new(peers as nat, |i: int| 0i64),
{
    let mut counts: Vec<Diff> = Vec::new();
    let mut i: usize = 0;
    while i < peers
        invariant
            i <= peers,
            counts@ == Seq::new(i as nat, |i: int| 0i64),
        decreases peers - i,
    {
        counts.push(0);
        assert(counts@ =~= Seq::new((i + 1) as nat, |i: int| 0i64));
        i = i + 1;
    }
    counts
}

/// As many empty buckets as there are powers of two.
fn no_schedules() -> (buckets: Vec<(i64, Diff)>)
    ensures
        buckets@ == Seq::new(HISTOGRAM_BUCKETS as nat, |i: int| (0i64, 0i64)),
{
    let mut buckets: Vec<(i64, Diff)> = Vec::new();
    let mut i: usize = 0;
    while i < HISTOGRAM_BUCKETS
        invariant
            i <= HISTOGRAM_BUCKETS,
            buckets@ == Seq::new(i as nat, |i: int| (0i64, 0i64)),
        decreases HISTOGRAM_BUCKETS - i,
    {
        buckets.push((0, 0));
        assert(buckets@ =~= Seq::new((i + 1) as nat, |i: int| (0i64, 0i64)));
        i = i + 1;
    }
    buckets
}

/// The counts of messages that are kept under `key`: zeros where none
/// are.
pub open spec fn counts_at(data: Map<(usize, usize), Vec<Diff>>, key: (usize, usize), peers: usize) -> Seq<
    Diff,
> {
    if data.contains_key(key) {
        data[key]@
    } else {
        Seq::new(peers as nat, |i: int| 0i64)
    }
}

/// The buckets that are kept under `key`: empty ones where none are.
pub open spec fn buckets_at(data: Map<(usize, usize), Vec<(i64, Diff)>>, key: (usize, usize)) -> Seq<
    (i64, Diff),
> {
    if data.contains_key(key) {
        data[key]@
    } else {
        Seq::new(HISTOGRAM_BUCKETS as nat, |i: int| (0i64, 0i64))
    }
}

/// The channels that are kept under `key`: none where none are.
pub open spec fn channels_at(
    data: Map<(usize, usize), Vec<ChannelsEvent>>,
    key: (usize, usize),
) -> Seq<ChannelsEvent> {
    if data.contains_key(key) {
        data[key]@
    } else {
        Seq::empty()
    }
}

/// Whether the messages can be counted: the worker at the other end is
/// one of the workers, and the count stays within a difference.
pub open spec fn counts_messages(demux: TimelyHandler, event: MessagesEvent) -> bool {
    let (data, key, peer) = if event.is_send {
        (demux.state.messages_sent_data@, (event.channel, event.source), event.target)
    } else {
        (demux.state.messages_received_data@, (event.channel, event.target), event.source)
    };
    &&& peer < demux.peers
    &&& event.length <= i64::MAX
    &&& counts_at(data, key, demux.peers)[peer as int] + event.length <= i64::MAX
}

impl TimelyHandler {
    /// A channel was built: it is kept with the channels of its dataflow,
    /// and its ends and address are given to the logs.
    fn handle_channels(&mut self, ts: Timestamp, worker: usize, event: ChannelsEvent)
        requires
            event.scope_addr@.len() > 0,
        ensures
            channels_logged(*old(self), *final(self), ts, worker, event),
    {
        let id = event.id;
        let hash = event.scope_addr_hash;
        let key = (event.scope_addr[0], worker);
        self.output.channels.push(
            Logged {
                datum: ChannelsRecord {
                    id,
                    worker,
                    source_node: event.source.0,
                    source_port: event.source.1,
                    target_node: event.target.0,
                    target_port: event.target.1,
                },
                ts,
                diff: 1,
            },
        );
        let addr = clone_addr(&event.scope_addr);
        // The channel is kept, so that what it gave can be taken back
        // when its dataflow shuts down.
        let mut channels = match remove_pair(&mut self.state.channels_data, key) {
            Some(channels) => channels,
            None => Vec::new(),
        };
        channels.push(event);
        let _ = insert_pair(&mut self.state.channels_data, key, channels);
        assert(self.state.channels_data@.remove(key) =~= old(self).state.channels_data@.remove(
            key,
        ));
        self.give_address(id, worker, addr, hash, ts, 1);
    }

    /// Messages went over a channel: they are added to the count that is
    /// kept and given to the log of the sender or of the receiver.
    fn handle_messages(&mut self, ts: Timestamp, event: MessagesEvent)
        requires
            old(self).state.well_formed(old(self).peers),
            counts_messages(*old(self), event),
        ensures
            final(self).state.well_formed(final(self).peers),
            messages_logged(*old(self), *final(self), ts, event),
    {
        let length = event.length as Diff;
        if event.is_send {
            // A worker sends to at most as many as there are workers.
            let key = (event.channel, event.source);
            let mut counts = match remove_pair(&mut self.state.messages_sent_data, key) {
                Some(counts) => counts,
                None => no_messages(self.peers),
            };
            let count = counts[event.target];
            counts.set(event.target, count + length);
            let _ = insert_pair(&mut self.state.messages_sent_data, key, counts);
            assert(self.state.messages_sent_data@.remove(key) =~= old(
                self,
            ).state.messages_sent_data@.remove(key));
            self.output.messages_sent.push(
                Logged {
                    datum: MessagesRecord {
                        channel: event.channel,
                        worker: event.source,
                        peer: event.target,
                    },
                    ts,
                    diff: length,
                },
            );
        } else {
            // A worker receives from at most as many as there are workers.
            let key = (event.channel, event.target);
            let mut counts = match remove_pair(&mut self.state.messages_received_data, key) {
                Some(counts) => counts,
                None => no_messages(self.peers),
            };
            let count = counts[event.source];
            counts.set(event.source, count + length);
            let _ = insert_pair(&mut self.state.messages_received_data, key, counts);
            assert(self.state.messages_received_data@.remove(key) =~= old(
                self,
            ).state.messages_received_data@.remove(key));
            self.output.messages_received.push(
                Logged {
                    datum: MessagesRecord {
                        channel: event.channel,
                        worker: event.target,
                        peer: event.source,
                    },
                    ts,
                    diff: length,
                },
            );
        }
    }
}


/// Whether the worker can wake: it is parked, not after now, and the
/// times round up to powers of two that fit.
pub open spec fn wakes(demux: TimelyHandler, time_ns: u128, worker: usize) -> bool {
    &&& demux.state.parks_data@.contains_key(worker)
    &&& ({
        let (start_ns, requested) = demux.state.parks_data@[worker];
        &&& start_ns <= time_ns
        &&& next_power((time_ns - start_ns) as u128) <= u128::MAX
        &&& requested matches Some(requested) ==> next_power(requested) <= u128::MAX
    })
}

/// Whether the operator can stop: it runs, not since after now, and the
/// run and the runs that are kept stay within a difference.
pub open spec fn stops(demux: TimelyHandler, time_ns: u128, worker: usize, id: usize) -> bool {
    &&& demux.state.schedules_stash@.contains_key((worker, id))
    &&& ({
        let start_ns = demux.state.schedules_stash@[(worker, id)];
        let elapsed = (time_ns - start_ns) as u128;
        let bucket = buckets_at(demux.state.schedules_data@, (id, worker))[next_power_exponent(
            elapsed,
        ) as int];
        &&& start_ns <= time_ns
        &&& elapsed <= i64::MAX
        &&& bucket.0 + 1 <= i64::MAX
        &&& bucket.1 + elapsed <= i64::MAX
    })
}

impl TimelyHandler {
    /// A worker parks or wakes. One that parks is kept with the time. One
    /// that wakes gives the time that it was parked, and the time that it
    /// had asked for, to the log, each rounded up to a power of two.
    fn handle_park(&mut self, time_ns: u128, ts: Timestamp, worker: usize, event: ParkEvent)
        requires
            event is Unpark ==> wakes(*old(self), time_ns, worker),
        ensures
            park_logged(*old(self), *final(self), time_ns, ts, worker, event),
    {
        match event {
            ParkEvent::Park(requested) => {
                let _ = insert_one(&mut self.state.parks_data, worker, (time_ns, requested));
            },
            ParkEvent::Unpark => {
                let parked = remove_one(&mut self.state.parks_data, worker);
                let (start_ns, requested) = match parked {
                    Some(parked) => parked,
                    None => {
                        return ;
                    },
                };
                let duration_ns = time_ns - start_ns;
                let requested_pow = match requested {
                    Some(requested) => match next_power_of_two(requested) {
                        Some((pow, _)) => Some(pow),
                        None => None,
                    },
                    None => None,
                };
                let duration_pow = match next_power_of_two(duration_ns) {
                    Some((pow, _)) => pow,
                    None => 0,
                };
                self.output.parks.push(
                    Logged {
                        datum: ParkRecord {
                            worker,
                            duration_pow: #[verifier::truncate]
                            (duration_pow as i64),
                            requested_pow,
                        },
                        ts,
                        diff: 1,
                    },
                );
            },
        }
    }

    /// An operator starts to run or stops. One that starts is kept with
    /// the time. One that stops gives the time that it ran to the logs,
    /// and is counted in the bucket of the power of two that this time
    /// rounds up to.
    fn handle_schedule(
        &mut self,
        time_ns: u128,
        ts: Timestamp,
        worker: usize,
        id: usize,
        start_stop: StartStop,
    )
        requires
            old(self).state.well_formed(old(self).peers),
            start_stop is Stop ==> stops(*old(self), time_ns, worker, id),
        ensures
            final(self).state.well_formed(final(self).peers),
            schedule_logged(*old(self), *final(self), time_ns, ts, worker, id, start_stop),
    {
        match start_stop {
            StartStop::Start => {
                let _ = insert_pair(&mut self.state.schedules_stash, (worker, id), time_ns);
            },
            StartStop::Stop => {
                let start_ns = match remove_pair(&mut self.state.schedules_stash, (worker, id)) {
                    Some(start_ns) => start_ns,
                    None => {
                        return ;
                    },
                };
                let elapsed_ns = time_ns - start_ns;
                let elapsed = elapsed_ns as Diff;
                let (pow, exponent) = match next_power_of_two(elapsed_ns) {
                    Some(found) => found,
                    None => {
                        proof {
                            lemma_pow2_ends();
                        }
                        return ;
                    },
                };
                proof {
                    lemma_next_power_of_difference(elapsed_ns, exponent as nat);
                }
                // The count and the time are kept, so that they can be
                // taken back when the operator shuts down. Sixty-four
                // buckets hold every run of up to some hundreds of years.
                let key = (id, worker);
                let mut buckets = match remove_pair(&mut self.state.schedules_data, key) {
                    Some(buckets) => buckets,
                    None => no_schedules(),
                };
                let index = exponent as usize;
                let bucket = buckets[index];
                buckets.set(index, (bucket.0 + 1, bucket.1 + elapsed));
                let _ = insert_pair(&mut self.state.schedules_data, key, buckets);
                assert(self.state.schedules_data@.remove(key) =~= old(
                    self,
                ).state.schedules_data@.remove(key));
                self.output.schedules_duration.push(
                    Logged { datum: ScheduleRecord { id, worker }, ts, diff: elapsed },
                );
                self.output.schedules_histogram.push(
                    Logged { datum: HistogramRecord { id, worker, pow }, ts, diff: 1 },
                );
            },
        }
    }
}


/// The times that the first `n` buckets take back from the log of
/// durations: for each bucket that has runs, the time of its runs.
pub open spec fn durations_taken_back(
    buckets: Seq<(i64, Diff)>,
    n: int,
    id: usize,
    worker: usize,
    ts: Timestamp,
) -> Seq<Logged<ScheduleRecord>>
    decreases n,
{
    if n <= 0 {
        Seq::empty()
    } else {
        let before = durations_taken_back(buckets, n - 1, id, worker, ts);
        if buckets[n - 1].0 != 0 {
            before.push(
                Logged {
                    datum: ScheduleRecord { id, worker },
                    ts,
                    diff: (-buckets[n - 1].1) as Diff,
                },
            )
        } else {
            before
        }
    }
}

/// The runs that the first `n` buckets take back from the histogram: for
/// each bucket that has runs, their number, under the bucket's power of
/// two.
pub open spec fn runs_taken_back(
    buckets: Seq<(i64, Diff)>,
    n: int,
    id: usize,
    worker: usize,
    ts: Timestamp,
) -> Seq<Logged<HistogramRecord>>
    decreases n,
{
    if n <= 0 {
        Seq::empty()
    } else {
        let before = runs_taken_back(buckets, n - 1, id, worker, ts);
        if buckets[n - 1].0 != 0 {
            before.push(
                Logged {
                    datum: HistogramRecord { id, worker, pow: pow2((n - 1) as nat) as u128 },
                    ts,
                    diff: (-buckets[n - 1].0) as Diff,
                },
            )
        } else {
            before
        }
    }
}

/// The messages that counts take back from a log: for each peer, the
/// count.
pub open spec fn messages_taken_back(
    counts: Seq<Diff>,
    channel: usize,
    worker: usize,
    ts: Timestamp,
) -> Seq<Logged<MessagesRecord>> {
    Seq::new(
        counts.len(),
        |i: int|
            Logged {
                datum: MessagesRecord { channel, worker, peer: i as usize },
                ts,
                diff: (-counts[i]) as Diff,
            },
    )
}

/// What channels take back from the logs, and the counts of messages
/// that stay.
pub struct ChannelsTakenBack {
    pub channels: Seq<Logged<ChannelsRecord>>,
    pub messages_sent: Seq<Logged<MessagesRecord>>,
    pub messages_received: Seq<Logged<MessagesRecord>>,
    pub address_validation: Seq<Logged<AddressValidation>>,
    pub addresses: Seq<Address>,
    pub sent: Map<(usize, usize), Vec<Diff>>,
    pub received: Map<(usize, usize), Vec<Diff>>,
}

/// The counts that are kept under `key`: none where none are.
pub open spec fn counts_kept(data: Map<(usize, usize), Vec<Diff>>, key: (usize, usize)) -> Seq<Diff> {
    if data.contains_key(key) {
        data[key]@
    } else {
        Seq::empty()
    }
}

/// What the first `n` of the channels take back, one after the other:
/// each its ends, the messages that the worker sent and received over it,
/// which are kept no longer, and its address.
pub open spec fn channels_taken_back(
    events: Seq<ChannelsEvent>,
    n: int,
    worker: usize,
    ts: Timestamp,
    sent: Map<(usize, usize), Vec<Diff>>,
    received: Map<(usize, usize), Vec<Diff>>,
) -> ChannelsTakenBack
    decreases n,
{
    if n <= 0 {
        ChannelsTakenBack {
            channels: Seq::empty(),
            messages_sent: Seq::empty(),
            messages_received: Seq::empty(),
            address_validation: Seq::empty(),
            addresses: Seq::empty(),
            sent,
            received,
        }
    } else {
        let before = channels_taken_back(events, n - 1, worker, ts, sent, received);
        let channel = events[n - 1];
        let key = (channel.id, worker);
        ChannelsTakenBack {
            channels: before.channels.push(
                Logged {
                    datum: ChannelsRecord {
                        id: channel.id,
                        worker,
                        source_node: channel.source.0,
                        source_port: channel.source.1,
                        target_node: channel.target.0,
                        target_port: channel.target.1,
                    },
                    ts,
                    diff: (-1int) as Diff,
                },
            ),
            messages_sent: before.messages_sent + messages_taken_back(
                counts_kept(before.sent, key),
                channel.id,
                worker,
                ts,
            ),
            messages_received: before.messages_received + messages_taken_back(
                counts_kept(before.received, key),
                channel.id,
                worker,
                ts,
            ),
            address_validation: before.address_validation.push(
                Logged {
                    datum: AddressValidation { id: channel.id, hash: channel.scope_addr_hash },
                    ts,
                    diff: 1,
                },
            ),
            addresses: before.addresses.push(
                Address {
                    id: channel.id as i64,
                    worker: worker as i64,
                    addr: channel.scope_addr@,
                    ts,
                    diff: (-1int) as Diff,
                },
            ),
            sent: before.sent.remove(key),
            received: before.received.remove(key),
        }
    }
}

impl TimelyHandler {
    /// Takes back what the runs of an operator gave to the logs.
    fn take_back_schedules(
        &mut self,
        buckets: &Vec<(i64, Diff)>,
        id: usize,
        worker: usize,
        ts: Timestamp,
    )
        requires
            histogram(buckets@),
        ensures
            final(self).granularity_ms == old(self).granularity_ms,
            final(self).peers == old(self).peers,
            final(self).state == old(self).state,
            final(self).output.schedules_duration@ == old(self).output.schedules_duration@
                + durations_taken_back(buckets@, HISTOGRAM_BUCKETS as int, id, worker, ts),
            final(self).output.schedules_histogram@ == old(self).output.schedules_histogram@
                + runs_taken_back(buckets@, HISTOGRAM_BUCKETS as int, id, worker, ts),
            old(self).output.unchanged_but(
                final(self).output,
                Logs { schedules_duration: true, schedules_histogram: true, ..no_logs() },
            ),
    {
        let mut index: usize = 0;
        let mut pow: u128 = 1;
        proof {
            lemma_pow2_ends();
        }
        while index < HISTOGRAM_BUCKETS
            invariant
                index <= HISTOGRAM_BUCKETS,
                histogram(buckets@),
                index < HISTOGRAM_BUCKETS ==> pow == pow2(index as nat),
                self.granularity_ms == old(self).granularity_ms,
                self.peers == old(self).peers,
                self.state == old(self).state,
                self.output.schedules_duration@ == old(self).output.schedules_duration@
                    + durations_taken_back(buckets@, index as int, id, worker, ts),
                self.output.schedules_histogram@ == old(self).output.schedules_histogram@
                    + runs_taken_back(buckets@, index as int, id, worker, ts),
                old(self).output.unchanged_but(
                    self.output,
                    Logs { schedules_duration: true, schedules_histogram: true, ..no_logs() },
                ),
            decreases HISTOGRAM_BUCKETS - index,
        {
            let (count, elapsed_ns) = buckets[index];
            if count != 0 {
                self.output.schedules_duration.push(
                    Logged { datum: ScheduleRecord { id, worker }, ts, diff: -elapsed_ns },
                );
                self.output.schedules_histogram.push(
                    Logged { datum: HistogramRecord { id, worker, pow }, ts, diff: -count },
                );
            }
            proof {
                assert(self.output.schedules_duration@ =~= old(self).output.schedules_duration@
                    + durations_taken_back(buckets@, index + 1, id, worker, ts));
                assert(self.output.schedules_histogram@ =~= old(self).output.schedules_histogram@
                    + runs_taken_back(buckets@, index + 1, id, worker, ts));
                lemma_pow2_ends();
                vstd::arithmetic::power2::lemma_pow2_unfold((index + 1) as nat);
                if index + 1 < 63 {
                    lemma_pow2_strictly_increases((index + 1) as nat, 63);
                }
            }
            index = index + 1;
            if index < HISTOGRAM_BUCKETS {
                pow = pow * 2;
            }
        }
    }

    /// Takes back what messages gave to one of the two logs.
    fn take_back_messages(
        log: &mut Vec<Logged<MessagesRecord>>,
        counts: &Vec<Diff>,
        channel: usize,
        worker: usize,
        ts: Timestamp,
    )
        requires
            forall|i: int| 0 <= i < counts@.len() ==> #[trigger] counts@[i] >= 0,
        ensures
            final(log)@ == old(log)@ + messages_taken_back(counts@, channel, worker, ts),
    {
        let mut index: usize = 0;
        while index < counts.len()
            invariant
                index <= counts.len(),
                forall|i: int| 0 <= i < counts@.len() ==> #[trigger] counts@[i] >= 0,
                log@ == old(log)@ + messages_taken_back(counts@, channel, worker, ts).take(
                    index as int,
                ),
            decreases counts.len() - index,
        {
            let count = counts[index];
            log.push(
                Logged { datum: MessagesRecord { channel, worker, peer: index }, ts, diff: -count },
            );
            assert(log@ =~= old(log)@ + messages_taken_back(counts@, channel, worker, ts).take(
                index + 1,
            ));
            index = index + 1;
        }
        assert(messages_taken_back(counts@, channel, worker, ts).take(counts.len() as int)
            =~= messages_taken_back(counts@, channel, worker, ts));
    }
}


/// Whether `after` is what `before` becomes when the operator `id` of
/// `worker` shuts down at the time `ts`.
///
/// An operator that is not kept leaves everything as it is. Else the
/// operator is kept no longer, and what it gave is taken back, in this
/// order: its name; the runs that are kept for it; where its address is
/// that of a dataflow, what the channels that are kept for the dataflow
/// gave; its address.
pub open spec fn shut_down(
    before: TimelyHandler,
    after: TimelyHandler,
    ts: Timestamp,
    worker: usize,
    id: usize,
) -> bool {
    let key = (id, worker);
    &&& after.granularity_ms == before.granularity_ms
    &&& after.peers == before.peers
    &&& if !before.state.operates_data@.contains_key(key) {
        &&& before.state.unchanged_but(after.state, nothing_kept())
        &&& after.output == before.output
    } else {
        let operator = before.state.operates_data@[key];
        let runs = (operator.id, worker);
        let buckets = before.state.schedules_data@[runs]@;
        let had_runs = before.state.schedules_data@.contains_key(runs);
        let dataflow = (operator.addr@[0], worker);
        let had_channels = operator.addr@.len() == 1 && before.state.channels_data@.contains_key(
            dataflow,
        );
        let events = if had_channels {
            before.state.channels_data@[dataflow]@
        } else {
            Seq::empty()
        };
        let taken = channels_taken_back(
            events,
            events.len() as int,
            worker,
            ts,
            before.state.messages_sent_data@,
            before.state.messages_received_data@,
        );
        &&& after.state.operates_data@ == before.state.operates_data@.remove(key)
        &&& after.state.schedules_data@ == before.state.schedules_data@.remove(runs)
        &&& after.state.channels_data@ == if had_channels {
            before.state.channels_data@.remove(dataflow)
        } else {
            before.state.channels_data@
        }
        &&& after.state.messages_sent_data@ == taken.sent
        &&& after.state.messages_received_data@ == taken.received
        &&& after.state.parks_data@ == before.state.parks_data@
        &&& after.state.schedules_stash@ == before.state.schedules_stash@
        &&& after.output.parks == before.output.parks
        &&& after.output.operates@ == before.output.operates@.push(
            Logged {
                datum: OperatesRecord { id: operator.id, worker, name: operator.name },
                ts,
                diff: (-1int) as Diff,
            },
        )
        &&& after.output.schedules_duration@ == before.output.schedules_duration@ + if had_runs {
            durations_taken_back(buckets, HISTOGRAM_BUCKETS as int, operator.id, worker, ts)
        } else {
            Seq::empty()
        }
        &&& after.output.schedules_histogram@ == before.output.schedules_histogram@ + if had_runs {
            runs_taken_back(buckets, HISTOGRAM_BUCKETS as int, operator.id, worker, ts)
        } else {
            Seq::empty()
        }
        &&& after.output.channels@ == before.output.channels@ + taken.channels
        &&& after.output.messages_sent@ == before.output.messages_sent@ + taken.messages_sent
        &&& after.output.messages_received@ == before.output.messages_received@
            + taken.messages_received
        &&& after.output.address_validation@ == (before.output.address_validation@
            + taken.address_validation).push(
            Logged {
                datum: AddressValidation { id: operator.id, hash: operator.addr_hash },
                ts,
                diff: 1,
            },
        )
        &&& addresses_of(after.output.addresses@) == (addresses_of(before.output.addresses@)
            + taken.addresses).push(
            Address {
                id: operator.id as i64,
                worker: worker as i64,
                addr: operator.addr@,
                ts,
                diff: (-1int) as Diff,
            },
        )
    }
}

/// A part of a map without one of its keys is a part of the map.
proof fn lemma_removed_from_part<V>(
    after: Map<(usize, usize), V>,
    before: Map<(usize, usize), V>,
    whole: Map<(usize, usize), V>,
    key: (usize, usize),
)
    requires
        after == before.remove(key),
        before.submap_of(whole),
    ensures
        after.submap_of(before),
        after.submap_of(whole),
{
    assert forall|k: (usize, usize)| #[trigger] after.dom().contains(k) implies before.dom().contains(
        k,
    ) && after[k] == before[k] && whole.dom().contains(k) && after[k] == whole[k] by {
        assert(before.dom().contains(k));
    }
}

/// Counts that are kept no longer leave the others as they were.
proof fn lemma_well_formed_without(
    before: TimelyState,
    after: TimelyState,
    peers: usize,
)
    requires
        before.well_formed(peers),
        after.messages_sent_data@.submap_of(before.messages_sent_data@),
        after.messages_received_data@.submap_of(before.messages_received_data@),
        after.schedules_data@.submap_of(before.schedules_data@),
    ensures
        after.well_formed(peers),
{
    assert forall|k: (usize, usize)| #[trigger]
        after.messages_sent_data@.contains_key(k) implies message_counts(
        after.messages_sent_data@[k]@,
        peers,
    ) by {
        assert(before.messages_sent_data@.contains_key(k));
    }
    assert forall|k: (usize, usize)| #[trigger]
        after.messages_received_data@.contains_key(k) implies message_counts(
        after.messages_received_data@[k]@,
        peers,
    ) by {
        assert(before.messages_received_data@.contains_key(k));
    }
    assert forall|k: (usize, usize)| #[trigger]
        after.schedules_data@.contains_key(k) implies histogram(after.schedules_data@[k]@) by {
        assert(before.schedules_data@.contains_key(k));
    }
}

impl TimelyHandler {
    /// Takes back what the channels of a dataflow gave to the logs.
    fn take_back_channels(&mut self, events: &Vec<ChannelsEvent>, worker: usize, ts: Timestamp)
        requires
            old(self).state.well_formed(old(self).peers),
        ensures
            final(self).granularity_ms == old(self).granularity_ms,
            final(self).peers == old(self).peers,
            final(self).state.well_formed(final(self).peers),
            old(self).state.unchanged_but(
                final(self).state,
                Kept { messages_sent_data: true, messages_received_data: true, ..nothing_kept() },
            ),
            old(self).output.unchanged_but(
                final(self).output,
                Logs {
                    channels: true,
                    messages_sent: true,
                    messages_received: true,
                    address_validation: true,
                    addresses: true,
                    ..no_logs()
                },
            ),
            ({
                let taken = channels_taken_back(
                    events@,
                    events@.len() as int,
                    worker,
                    ts,
                    old(self).state.messages_sent_data@,
                    old(self).state.messages_received_data@,
                );
                &&& final(self).state.messages_sent_data@ == taken.sent
                &&& final(self).state.messages_received_data@ == taken.received
                &&& final(self).output.channels@ == old(self).output.channels@ + taken.channels
                &&& final(self).output.messages_sent@ == old(self).output.messages_sent@
                    + taken.messages_sent
                &&& final(self).output.messages_received@ == old(self).output.messages_received@
                    + taken.messages_received
                &&& final(self).output.address_validation@ == old(
                    self,
                ).output.address_validation@ + taken.address_validation
                &&& addresses_of(final(self).output.addresses@) == addresses_of(
                    old(self).output.addresses@,
                ) + taken.addresses
            }),
    {
        let mut index: usize = 0;
        proof {
            assert(addresses_of(self.output.addresses@) =~= addresses_of(
                old(self).output.addresses@,
            ) + Seq::<Address>::empty());
        }
        while index < events.len()
            invariant
                index <= events.len(),
                self.granularity_ms == old(self).granularity_ms,
                self.peers == old(self).peers,
                self.state.well_formed(self.peers),
                self.state.messages_sent_data@.submap_of(old(self).state.messages_sent_data@),
                self.state.messages_received_data@.submap_of(
                    old(self).state.messages_received_data@,
                ),
                old(self).state.unchanged_but(
                    self.state,
                    Kept {
                        messages_sent_data: true,
                        messages_received_data: true,
                        ..nothing_kept()
                    },
                ),
                old(self).output.unchanged_but(
                    self.output,
                    Logs {
                        channels: true,
                        messages_sent: true,
                        messages_received: true,
                        address_validation: true,
                        addresses: true,
                        ..no_logs()
                    },
                ),
                ({
                    let taken = channels_taken_back(
                        events@,
                        index as int,
                        worker,
                        ts,
                        old(self).state.messages_sent_data@,
                        old(self).state.messages_received_data@,
                    );
                    &&& self.state.messages_sent_data@ == taken.sent
                    &&& self.state.messages_received_data@ == taken.received
                    &&& self.output.channels@ == old(self).output.channels@ + taken.channels
                    &&& self.output.messages_sent@ == old(self).output.messages_sent@
                        + taken.messages_sent
                    &&& self.output.messages_received@ == old(self).output.messages_received@
                        + taken.messages_received
                    &&& self.output.address_validation@ == old(self).output.address_validation@
                        + taken.address_validation
                    &&& addresses_of(self.output.addresses@) == addresses_of(
                        old(self).output.addresses@,
                    ) + taken.addresses
                }),
            decreases events.len() - index,
        {
            let ghost before = channels_taken_back(
                events@,
                index as int,
                worker,
                ts,
                old(self).state.messages_sent_data@,
                old(self).state.messages_received_data@,
            );
            let ghost after = channels_taken_back(
                events@,
                index + 1,
                worker,
                ts,
                old(self).state.messages_sent_data@,
                old(self).state.messages_received_data@,
            );
            let ghost state_before = self.state;
            let event = &events[index];
            let id = event.id;
            let key = (id, worker);
            self.output.channels.push(
                Logged {
                    datum: ChannelsRecord {
                        id,
                        worker,
                        source_node: event.source.0,
                        source_port: event.source.1,
                        target_node: event.target.0,
                        target_port: event.target.1,
                    },
                    ts,
                    diff: -1,
                },
            );
            assert(self.output.channels@ =~= old(self).output.channels@ + after.channels);
            match remove_pair(&mut self.state.messages_sent_data, key) {
                Some(sent) => {
                    assert(state_before.messages_sent_data@.contains_key(key));
                    assert(message_counts(sent@, self.peers));
                    Self::take_back_messages(&mut self.output.messages_sent, &sent, id, worker, ts);
                },
                None => {
                    assert(messages_taken_back(Seq::<Diff>::empty(), id, worker, ts)
                        =~= Seq::<Logged<MessagesRecord>>::empty());
                },
            }
            assert(self.output.messages_sent@ =~= old(self).output.messages_sent@
                + after.messages_sent);
            match remove_pair(&mut self.state.messages_received_data, key) {
                Some(received) => {
                    assert(state_before.messages_received_data@.contains_key(key));
                    assert(message_counts(received@, self.peers));
                    Self::take_back_messages(
                        &mut self.output.messages_received,
                        &received,
                        id,
                        worker,
                        ts,
                    );
                },
                None => {
                    assert(messages_taken_back(Seq::<Diff>::empty(), id, worker, ts)
                        =~= Seq::<Logged<MessagesRecord>>::empty());
                },
            }
            assert(self.output.messages_received@ =~= old(self).output.messages_received@
                + after.messages_received);
            proof {
                lemma_removed_from_part(
                    self.state.messages_sent_data@,
                    state_before.messages_sent_data@,
                    old(self).state.messages_sent_data@,
                    key,
                );
                lemma_removed_from_part(
                    self.state.messages_received_data@,
                    state_before.messages_received_data@,
                    old(self).state.messages_received_data@,
                    key,
                );
                lemma_well_formed_without(state_before, self.state, self.peers);
            }
            let ghost addresses_before = addresses_of(self.output.addresses@);
            let ghost validation_before = self.output.address_validation@;
            let addr = clone_addr(&event.scope_addr);
            self.give_address(id, worker, addr, event.scope_addr_hash, ts, -1);
            assert(self.output.address_validation@ =~= old(self).output.address_validation@
                + after.address_validation);
            assert(addresses_of(self.output.addresses@) =~= addresses_of(
                old(self).output.addresses@,
            ) + after.addresses);
            index = index + 1;
        }
    }

    /// An operator shut down: what it gave to the logs is taken back.
    fn handle_shutdown(&mut self, ts: Timestamp, worker: usize, id: usize)
        requires
            old(self).state.well_formed(old(self).peers),
        ensures
            final(self).state.well_formed(final(self).peers),
            shut_down(*old(self), *final(self), ts, worker, id),
    {
        let operator = match remove_pair(&mut self.state.operates_data, (id, worker)) {
            Some(operator) => operator,
            None => {
                assert(self.state.operates_data@ =~= old(self).state.operates_data@);
                return ;
            },
        };
        let OperatesEvent { id, addr, name, addr_hash } = operator;
        // The name that was announced is taken back.
        self.output.operates.push(
            Logged { datum: OperatesRecord { id, worker, name }, ts, diff: -1 },
        );
        // The runs of the operator are taken back.
        let ghost state_before = self.state;
        match remove_pair(&mut self.state.schedules_data, (id, worker)) {
            Some(schedules) => {
                assert(state_before.schedules_data@.contains_key((id, worker)));
                self.take_back_schedules(&schedules, id, worker, ts);
            },
            None => {
                assert(self.state.schedules_data@ =~= old(self).state.schedules_data@.remove(
                    (id, worker),
                ));
                assert(self.output.schedules_duration@ =~= old(self).output.schedules_duration@
                    + Seq::<Logged<ScheduleRecord>>::empty());
                assert(self.output.schedules_histogram@ =~= old(
                    self,
                ).output.schedules_histogram@ + Seq::<Logged<HistogramRecord>>::empty());
            },
        }
        proof {
            lemma_well_formed_without(state_before, self.state, self.peers);
        }
        // A dataflow that shuts down takes its channels along.
        let mut taken = false;
        if addr.len() == 1 {
            let dataflow = addr[0];
            match remove_pair(&mut self.state.channels_data, (dataflow, worker)) {
                Some(events) => {
                    self.take_back_channels(&events, worker, ts);
                    taken = true;
                },
                None => {
                    assert(self.state.channels_data@ =~= old(self).state.channels_data@);
                },
            }
        }
        if !taken {
            assert(self.output.channels@ =~= old(self).output.channels@ + Seq::<
                Logged<ChannelsRecord>,
            >::empty());
            assert(self.output.messages_sent@ =~= old(self).output.messages_sent@ + Seq::<
                Logged<MessagesRecord>,
            >::empty());
            assert(self.output.messages_received@ =~= old(self).output.messages_received@ + Seq::<
                Logged<MessagesRecord>,
            >::empty());
            assert(self.output.address_validation@ =~= old(self).output.address_validation@
                + Seq::<Logged<AddressValidation>>::empty());
            assert(addresses_of(self.output.addresses@) =~= addresses_of(
                old(self).output.addresses@,
            ) + Seq::<Address>::empty());
        }
        self.give_address(id, worker, addr, addr_hash, ts, -1);
    }
}

/// Whether `after` is what `before` becomes when the operator of `event`
/// is built: the operator is kept, and its name and address are given
/// to the logs.
pub open spec fn operates_logged(
    before: TimelyHandler,
    after: TimelyHandler,
    ts: Timestamp,
    worker: usize,
    event: OperatesEvent,
) -> bool {
    &&& after.granularity_ms == before.granularity_ms
    &&& after.peers == before.peers
    &&& after.state.operates_data@ == before.state.operates_data@.insert(
        (event.id, worker),
        event,
    )
    &&& before.state.unchanged_but(
        after.state,
        Kept { operates_data: true, ..nothing_kept() },
    )
    &&& after.output.operates@ == before.output.operates@.push(
        Logged {
            datum: OperatesRecord { id: event.id, worker, name: event.name },
            ts,
            diff: 1,
        },
    )
    &&& after.output.address_validation@ == before.output.address_validation@.push(
        Logged { datum: AddressValidation { id: event.id, hash: event.addr_hash }, ts, diff: 1 },
    )
    &&& addresses_of(after.output.addresses@) == addresses_of(
        before.output.addresses@,
    ).push(
        Address {
            id: event.id as i64,
            worker: worker as i64,
            addr: event.addr@,
            ts,
            diff: 1,
        },
    )
    &&& before.output.unchanged_but(
        after.output,
        Logs { operates: true, address_validation: true, addresses: true, ..no_logs() },
    )
}

/// Whether `after` is what `before` becomes when the channel of `event` is
/// built: the channel is kept after the others of its dataflow, and its
/// ends and address are given to the logs.
pub open spec fn channels_logged(
    before: TimelyHandler,
    after: TimelyHandler,
    ts: Timestamp,
    worker: usize,
    event: ChannelsEvent,
) -> bool {
    &&& after.granularity_ms == before.granularity_ms
    &&& after.peers == before.peers
    &&& ({
        let key = (event.scope_addr@[0], worker);
        &&& after.state.channels_data@.contains_key(key)
        &&& after.state.channels_data@[key]@ == channels_at(
            before.state.channels_data@,
            key,
        ).push(event)
        &&& after.state.channels_data@.remove(key)
            == before.state.channels_data@.remove(key)
    })
    &&& before.state.unchanged_but(
        after.state,
        Kept { channels_data: true, ..nothing_kept() },
    )
    &&& after.output.channels@ == before.output.channels@.push(
        Logged {
            datum: ChannelsRecord {
                id: event.id,
                worker,
                source_node: event.source.0,
                source_port: event.source.1,
                target_node: event.target.0,
                target_port: event.target.1,
            },
            ts,
            diff: 1,
        },
    )
    &&& after.output.address_validation@ == before.output.address_validation@.push(
        Logged {
            datum: AddressValidation { id: event.id, hash: event.scope_addr_hash },
            ts,
            diff: 1,
        },
    )
    &&& addresses_of(after.output.addresses@) == addresses_of(
        before.output.addresses@,
    ).push(
        Address {
            id: event.id as i64,
            worker: worker as i64,
            addr: event.scope_addr@,
            ts,
            diff: 1,
        },
    )
    &&& before.output.unchanged_but(
        after.output,
        Logs { channels: true, address_validation: true, addresses: true, ..no_logs() },
    )
}

/// Whether `after` is what `before` becomes when the messages of `event`
/// went over a channel: they are added to the count that is kept for the
/// worker's peer, and given to the log of the sender or of the receiver.
pub open spec fn messages_logged(
    before: TimelyHandler,
    after: TimelyHandler,
    ts: Timestamp,
    event: MessagesEvent,
) -> bool {
    &&& after.granularity_ms == before.granularity_ms
    &&& after.peers == before.peers
    &&& event.is_send ==> ({
        let key = (event.channel, event.source);
        let counts = counts_at(before.state.messages_sent_data@, key, before.peers);
        &&& after.state.messages_sent_data@.contains_key(key)
        &&& after.state.messages_sent_data@[key]@ == counts.update(
            event.target as int,
            (counts[event.target as int] + event.length) as Diff,
        )
        &&& after.state.messages_sent_data@.remove(key)
            == before.state.messages_sent_data@.remove(key)
        &&& before.state.unchanged_but(
            after.state,
            Kept { messages_sent_data: true, ..nothing_kept() },
        )
        &&& after.output.messages_sent@ == before.output.messages_sent@.push(
            Logged {
                datum: MessagesRecord {
                    channel: event.channel,
                    worker: event.source,
                    peer: event.target,
                },
                ts,
                diff: event.length as Diff,
            },
        )
        &&& before.output.unchanged_but(
            after.output,
            Logs { messages_sent: true, ..no_logs() },
        )
    })
    &&& !event.is_send ==> ({
        let key = (event.channel, event.target);
        let counts = counts_at(
            before.state.messages_received_data@,
            key,
            before.peers,
        );
        &&& after.state.messages_received_data@.contains_key(key)
        &&& after.state.messages_received_data@[key]@ == counts.update(
            event.source as int,
            (counts[event.source as int] + event.length) as Diff,
        )
        &&& after.state.messages_received_data@.remove(key)
            == before.state.messages_received_data@.remove(key)
        &&& before.state.unchanged_but(
            after.state,
            Kept { messages_received_data: true, ..nothing_kept() },
        )
        &&& after.output.messages_received@ == before.output.messages_received@.push(
            Logged {
                datum: MessagesRecord {
                    channel: event.channel,
                    worker: event.target,
                    peer: event.source,
                },
                ts,
                diff: event.length as Diff,
            },
        )
        &&& before.output.unchanged_but(
            after.output,
            Logs { messages_received: true, ..no_logs() },
        )
    })
}

/// Whether `after` is what `before` becomes when `worker` parks or wakes.
/// One that parks is kept with the time. One that wakes is kept no
/// longer, and the time that it was parked and the time that it had
/// asked for are given to the log, each rounded up to a power of two.
pub open spec fn park_logged(
    before: TimelyHandler,
    after: TimelyHandler,
    time_ns: u128,
    ts: Timestamp,
    worker: usize,
    event: ParkEvent,
) -> bool {
    &&& after.granularity_ms == before.granularity_ms
    &&& after.peers == before.peers
    &&& before.state.unchanged_but(
        after.state,
        Kept { parks_data: true, ..nothing_kept() },
    )
    &&& match event {
        ParkEvent::Park(requested) => {
            &&& after.state.parks_data@ == before.state.parks_data@.insert(
                worker,
                (time_ns, requested),
            )
            &&& after.output == before.output
        },
        ParkEvent::Unpark => {
            let (start_ns, requested) = before.state.parks_data@[worker];
            &&& after.state.parks_data@ == before.state.parks_data@.remove(worker)
            &&& after.output.parks@ == before.output.parks@.push(
                Logged {
                    datum: ParkRecord {
                        worker,
                        duration_pow: next_power((time_ns - start_ns) as u128) as i64,
                        requested_pow: match requested {
                            Some(requested) => Some(next_power(requested) as u128),
                            None => None,
                        },
                    },
                    ts,
                    diff: 1,
                },
            )
            &&& before.output.unchanged_but(
                after.output,
                Logs { parks: true, ..no_logs() },
            )
        },
    }
}

/// Whether `after` is what `before` becomes when the operator `id` of
/// `worker` starts to run or stops. One that starts is kept with the
/// time. One that stops is kept no longer: the time that it ran is given
/// to the logs, and it is counted in the bucket of the power of two that
/// this time rounds up to.
pub open spec fn schedule_logged(
    before: TimelyHandler,
    after: TimelyHandler,
    time_ns: u128,
    ts: Timestamp,
    worker: usize,
    id: usize,
    start_stop: StartStop,
) -> bool {
    &&& after.granularity_ms == before.granularity_ms
    &&& after.peers == before.peers
    &&& match start_stop {
        StartStop::Start => {
            &&& after.state.schedules_stash@ == before.state.schedules_stash@.insert((worker, id), time_ns)
            &&& before.state.unchanged_but(
                after.state,
                Kept { schedules_stash: true, ..nothing_kept() },
            )
            &&& after.output == before.output
        },
        StartStop::Stop => {
            let start_ns = before.state.schedules_stash@[(worker, id)];
            let elapsed = (time_ns - start_ns) as u128;
            let exponent = next_power_exponent(elapsed) as int;
            let key = (id, worker);
            let buckets = buckets_at(before.state.schedules_data@, key);
            &&& after.state.schedules_stash@ == before.state.schedules_stash@.remove((worker, id))
            &&& after.state.schedules_data@.contains_key(key)
            &&& after.state.schedules_data@[key]@ == buckets.update(
                exponent,
                (
                    (buckets[exponent].0 + 1) as i64,
                    (buckets[exponent].1 + elapsed) as Diff,
                ),
            )
            &&& after.state.schedules_data@.remove(key) == before.state.schedules_data@.remove(key)
            &&& before.state.unchanged_but(
                after.state,
                Kept { schedules_stash: true, schedules_data: true, ..nothing_kept() },
            )
            &&& after.output.schedules_duration@ == before.output.schedules_duration@.push(
                Logged { datum: ScheduleRecord { id, worker }, ts, diff: elapsed as Diff },
            )
            &&& after.output.schedules_histogram@ == before.output.schedules_histogram@.push(
                Logged {
                    datum: HistogramRecord { id, worker, pow: next_power(elapsed) as u128 },
                    ts,
                    diff: 1,
                },
            )
            &&& before.output.unchanged_but(
                after.output,
                Logs { schedules_duration: true, schedules_histogram: true, ..no_logs() },
            )
        },
    }
}


/// Whether the demux can take the event: the timestamp fits, and what
/// the event refers to is kept and stays within the integers.
pub open spec fn takes(demux: TimelyHandler, time_ns: u128, worker: usize, event: TimelyEvent) -> bool {
    &&& demux.ts_fits(time_ns)
    &&& match event {
        TimelyEvent::Channels(e) => e.scope_addr@.len() > 0,
        TimelyEvent::Park(ParkEvent::Unpark) => wakes(demux, time_ns, worker),
        TimelyEvent::Messages(e) => counts_messages(demux, e),
        TimelyEvent::Schedule { id, start_stop: StartStop::Stop } => stops(
            demux,
            time_ns,
            worker,
            id,
        ),
        _ => true,
    }
}

/// Whether `after` is what `before` becomes when `worker` reports `event`
/// at the time `time_ns`.
pub open spec fn handled(
    before: TimelyHandler,
    after: TimelyHandler,
    time_ns: u128,
    worker: usize,
    event: TimelyEvent,
) -> bool {
    let ts = rounded_up(time_ns, before.granularity_ms) as Timestamp;
    match event {
        TimelyEvent::Operates(e) => operates_logged(before, after, ts, worker, e),
        TimelyEvent::Channels(e) => channels_logged(before, after, ts, worker, e),
        TimelyEvent::Shutdown { id } => shut_down(before, after, ts, worker, id),
        TimelyEvent::Park(e) => park_logged(before, after, time_ns, ts, worker, e),
        TimelyEvent::Messages(e) => messages_logged(before, after, ts, e),
        TimelyEvent::Schedule { id, start_stop } => schedule_logged(
            before,
            after,
            time_ns,
            ts,
            worker,
            id,
            start_stop,
        ),
        TimelyEvent::Other => after == before,
    }
}

impl TimelyHandler {
    /// Whether the handler can take the event.
    pub(crate) fn can_take(&self, time_ns: u128, worker: usize, event: &TimelyEvent) -> (b: bool)
        requires
            self.state.well_formed(self.peers),
        ensures
            b == takes(*self, time_ns, worker, *event),
    {
        if self.granularity_ms < 1 {
            return false;
        }
        let time_ms = #[verifier::truncate]
        ((time_ns / 1_000_000) as u64);
        let periods = (time_ms / self.granularity_ms) as u128 + 1;
        let fits = match periods.checked_mul(self.granularity_ms as u128) {
            Some(rounded) => rounded <= u64::MAX as u128,
            None => false,
        };
        if !fits {
            return false;
        }
        match event {
            TimelyEvent::Channels(e) => e.scope_addr.len() > 0,
            TimelyEvent::Park(ParkEvent::Unpark) => match get_one(&self.state.parks_data, worker) {
                Some((start_ns, requested)) => {
                    if *start_ns > time_ns {
                        return false;
                    }
                    if next_power_of_two(time_ns - *start_ns).is_none() {
                        return false;
                    }
                    match requested {
                        Some(requested) => next_power_of_two(*requested).is_some(),
                        None => true,
                    }
                },
                None => false,
            },
            TimelyEvent::Messages(e) => {
                let (data, key, peer) = if e.is_send {
                    (&self.state.messages_sent_data, (e.channel, e.source), e.target)
                } else {
                    (&self.state.messages_received_data, (e.channel, e.target), e.source)
                };
                if peer >= self.peers || e.length as u128 > i64::MAX as u128 {
                    return false;
                }
                let count = match get_pair(data, key) {
                    Some(counts) => counts[peer],
                    None => 0,
                };
                count as i128 + e.length as i128 <= i64::MAX as i128
            },
            TimelyEvent::Schedule { id, start_stop: StartStop::Stop } => {
                let start_ns = match get_pair(&self.state.schedules_stash, (worker, *id)) {
                    Some(start_ns) => *start_ns,
                    None => {
                        return false;
                    },
                };
                if start_ns > time_ns {
                    return false;
                }
                let elapsed = time_ns - start_ns;
                if elapsed > i64::MAX as u128 {
                    return false;
                }
                let exponent = match next_power_of_two(elapsed) {
                    Some((_, exponent)) => exponent,
                    None => {
                        proof {
                            lemma_pow2_ends();
                        }
                        return false;
                    },
                };
                proof {
                    lemma_next_power_of_difference(elapsed, exponent as nat);
                }
                let bucket = match get_pair(&self.state.schedules_data, (*id, worker)) {
                    Some(buckets) => buckets[exponent as usize],
                    None => (0, 0),
                };
                bucket.0 < i64::MAX && bucket.1 as i128 + elapsed as i128 <= i64::MAX as i128
            },
            _ => true,
        }
    }

    /// Takes an event that `worker` reports at the time `time_ns`.
    pub(crate) fn handle(&mut self, time_ns: u128, worker: usize, event: TimelyEvent)
        requires
            old(self).state.well_formed(old(self).peers),
            takes(*old(self), time_ns, worker, event),
        ensures
            final(self).state.well_formed(final(self).peers),
            handled(*old(self), *final(self), time_ns, worker, event),
    {
        let ts = self.ts(time_ns);
        match event {
            TimelyEvent::Operates(e) => self.handle_operates(ts, worker, e),
            TimelyEvent::Channels(e) => self.handle_channels(ts, worker, e),
            TimelyEvent::Shutdown { id } => self.handle_shutdown(ts, worker, id),
            TimelyEvent::Park(e) => self.handle_park(time_ns, ts, worker, e),
            TimelyEvent::Messages(e) => self.handle_messages(ts, e),
            TimelyEvent::Schedule { id, start_stop } => self.handle_schedule(
                time_ns,
                ts,
                worker,
                id,
                start_stop,
            ),
            TimelyEvent::Other => {},
        }
    }
}

/// Turns events into updates. The counts that are kept have their sizes
/// at all times, so that nothing is asked of them.
#[derive(Debug)]
pub struct TimelyDemux {
    handler: TimelyHandler,
}

impl TimelyDemux {
    #[verifier::type_invariant]
    spec fn counts_have_their_sizes(&self) -> bool {
        self.handler.state.well_formed(self.handler.peers)
    }

    /// What is kept, what was given to the logs, the granularity and the
    /// number of workers.
    pub closed spec fn handler(&self) -> TimelyHandler {
        self.handler
    }

    /// A demux that has seen no event: nothing is kept and nothing is
    /// given to any log.
    pub fn new(granularity_ms: u64, peers: usize) -> (demux: TimelyDemux)
        ensures
            demux.handler().granularity_ms == granularity_ms,
            demux.handler().peers == peers,
            demux.handler().state.operates_data@ == Map::<(usize, usize), OperatesEvent>::empty(),
            demux.handler().state.channels_data@ == Map::<
                (usize, usize),
                Vec<ChannelsEvent>,
            >::empty(),
            demux.handler().state.parks_data@ == Map::<usize, (u128, Option<u128>)>::empty(),
            demux.handler().state.schedules_stash@ == Map::<(usize, usize), u128>::empty(),
            demux.handler().state.messages_sent_data@ == Map::<(usize, usize), Vec<Diff>>::empty(),
            demux.handler().state.messages_received_data@ == Map::<
                (usize, usize),
                Vec<Diff>,
            >::empty(),
            demux.handler().state.schedules_data@ == Map::<
                (usize, usize),
                Vec<(i64, Diff)>,
            >::empty(),
            demux.handler().output.operates@.len() == 0,
            demux.handler().output.channels@.len() == 0,
            demux.handler().output.addresses@.len() == 0,
            demux.handler().output.address_validation@.len() == 0,
            demux.handler().output.parks@.len() == 0,
            demux.handler().output.messages_sent@.len() == 0,
            demux.handler().output.messages_received@.len() == 0,
            demux.handler().output.schedules_duration@.len() == 0,
            demux.handler().output.schedules_histogram@.len() == 0,
    {
        TimelyDemux { handler: TimelyHandler::new(granularity_ms, peers) }
    }

    /// What is kept between events.
    pub fn state(&self) -> (state: &TimelyState)
        ensures
            *state == self.handler().state,
    {
        &self.handler.state
    }

    /// What the events have given to the logs.
    pub fn output(&self) -> (output: &TimelyOutput)
        ensures
            *output == self.handler().output,
    {
        &self.handler.output
    }

    /// Hands out what the events have given to the logs, and goes on with
    /// empty logs.
    pub fn take_output(&mut self) -> (output: TimelyOutput)
        ensures
            output == old(self).handler().output,
            final(self).handler().state == old(self).handler().state,
            final(self).handler().granularity_ms == old(self).handler().granularity_ms,
            final(self).handler().peers == old(self).handler().peers,
            final(self).handler().output.operates@.len() == 0,
            final(self).handler().output.channels@.len() == 0,
            final(self).handler().output.addresses@.len() == 0,
            final(self).handler().output.address_validation@.len() == 0,
            final(self).handler().output.parks@.len() == 0,
            final(self).handler().output.messages_sent@.len() == 0,
            final(self).handler().output.messages_received@.len() == 0,
            final(self).handler().output.schedules_duration@.len() == 0,
            final(self).handler().output.schedules_histogram@.len() == 0,
    {
        proof {
            use_type_invariant(&*self);
        }
        let mut handler = TimelyHandler::new(0, 0);
        std::mem::swap(&mut handler, &mut self.handler);
        let TimelyHandler { state, output, granularity_ms, peers } = handler;
        self.handler = TimelyHandler { state, output: TimelyOutput::new(), granularity_ms, peers };
        output
    }

    /// Whether the demux can take the event.
    pub fn can_take(&self, time_ns: u128, worker: usize, event: &TimelyEvent) -> (b: bool)
        ensures
            b == takes(self.handler(), time_ns, worker, *event),
    {
        proof {
            use_type_invariant(self);
        }
        self.handler.can_take(time_ns, worker, event)
    }

    /// Takes an event that `worker` reports at the time `time_ns`.
    pub fn handle(&mut self, time_ns: u128, worker: usize, event: TimelyEvent)
        requires
            takes(old(self).handler(), time_ns, worker, event),
        ensures
            handled(old(self).handler(), final(self).handler(), time_ns, worker, event),
    {
        proof {
            use_type_invariant(&*self);
        }
        let mut handler = TimelyHandler::new(0, 0);
        std::mem::swap(&mut handler, &mut self.handler);
        handler.handle(time_ns, worker, event);
        self.handler = handler;
    }
}


/// The operator whose addresses are not one, if there is such an
/// operator: the first of them. Each entry is an operator with the
/// hashes of the addresses that were announced for it.
pub fn validate_addresses(hashes: &Vec<(usize, Vec<u64>)>) -> (offender: Option<usize>)
    ensures
        match offender {
            Some(operator) => exists|i: int|
                0 <= i < hashes@.len() && (#[trigger] hashes@[i]).0 == operator && hashes@[i].1@.len()
                    != 1 && forall|j: int| 0 <= j < i ==> (#[trigger] hashes@[j]).1@.len() == 1,
            None => forall|i: int| 0 <= i < hashes@.len() ==> (#[trigger] hashes@[i]).1@.len() == 1,
        },
{
    let mut i: usize = 0;
    while i < hashes.len()
        invariant
            i <= hashes.len(),
            forall|j: int| 0 <= j < i ==> (#[trigger] hashes@[j]).1@.len() == 1,
        decreases hashes.len() - i,
    {
        // The hashes of an operator are counted: they are distinct.
        let count = hashes[i].1.len();
        if count != 1 {
            return Some(hashes[i].0);
        }
        i = i + 1;
    }
    None
}

} // verus!
