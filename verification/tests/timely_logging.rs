use sequencer::logging::differential::Update;
use sequencer::logging::differential::logging_interval_ms;
use sequencer::logging::rows::{create_address_row, project, thinning, LogDatum};
use sequencer::logging::variants::{
    differential_logs_kept, timely_logs_kept, DifferentialLog, LogVariant, TimelyLog,
};
use sequencer::logging::timely::{
    granularity_ms, next_power_of_two, validate_addresses, AddressRecord, AddressValidation, ChannelsEvent,
    ChannelsRecord, HistogramRecord, Logged, MessagesEvent, MessagesRecord, OperatesEvent,
    OperatesRecord, ParkEvent, ParkRecord, ScheduleRecord, StartStop, TimelyDemux, TimelyEvent,
};

const MS: u128 = 1_000_000;

fn operates(id: usize, addr: Vec<usize>, name: &str, hash: u64) -> TimelyEvent {
    TimelyEvent::Operates(OperatesEvent { id, addr, name: name.to_string(), addr_hash: hash })
}

fn channel(id: usize, scope_addr: Vec<usize>, hash: u64) -> TimelyEvent {
    TimelyEvent::Channels(ChannelsEvent {
        id,
        scope_addr,
        source: (1, 2),
        target: (3, 4),
        scope_addr_hash: hash,
    })
}

fn take(demux: &mut TimelyDemux, time_ns: u128, worker: usize, event: TimelyEvent) {
    assert!(demux.can_take(time_ns, worker, &event));
    demux.handle(time_ns, worker, event);
}

fn logged<T>(datum: T, ts: u64, diff: i64) -> Logged<T> {
    Logged { datum, ts, diff }
}

#[test]
fn power_of_two_rounds_up() {
    assert_eq!(next_power_of_two(0), Some((1, 0)));
    assert_eq!(next_power_of_two(1), Some((1, 0)));
    assert_eq!(next_power_of_two(2), Some((2, 1)));
    assert_eq!(next_power_of_two(3), Some((4, 2)));
    assert_eq!(next_power_of_two(1000), Some((1024, 10)));
    assert_eq!(next_power_of_two(1024), Some((1024, 10)));
    assert_eq!(next_power_of_two(1 << 127), Some((1 << 127, 127)));
    assert_eq!(next_power_of_two((1 << 127) + 1), None);
}

#[test]
fn operator_is_announced_with_its_address() {
    let mut demux = TimelyDemux::new(10, 2);
    take(&mut demux, 25 * MS, 1, operates(7, vec![0, 3], "map", 99));
    assert_eq!(
        demux.output().operates,
        vec![logged(OperatesRecord { id: 7, worker: 1, name: "map".to_string() }, 30, 1)]
    );
    assert_eq!(
        demux.output().address_validation,
        vec![logged(AddressValidation { id: 7, hash: 99 }, 30, 1)]
    );
    assert_eq!(
        demux.output().addresses,
        vec![logged(AddressRecord { id: 7, worker: 1, addr: vec![0, 3] }, 30, 1)]
    );
    assert!(demux.state().operates_data.contains_key(&(7, 1)));
}

#[test]
fn shutdown_of_unknown_operator_changes_nothing() {
    let mut demux = TimelyDemux::new(10, 2);
    take(&mut demux, 0, 0, TimelyEvent::Shutdown { id: 5 });
    assert!(demux.output().operates.is_empty());
    assert!(demux.output().addresses.is_empty());
    assert!(demux.output().address_validation.is_empty());
}

#[test]
fn shutdown_takes_back_what_the_operator_gave() {
    let mut demux = TimelyDemux::new(10, 2);
    take(&mut demux, 0, 0, operates(7, vec![0, 3], "map", 99));
    // Two runs: one of 3 ns, one of 1000 ns.
    take(&mut demux, 100, 0, TimelyEvent::Schedule { id: 7, start_stop: StartStop::Start });
    take(&mut demux, 103, 0, TimelyEvent::Schedule { id: 7, start_stop: StartStop::Stop });
    take(&mut demux, 200, 0, TimelyEvent::Schedule { id: 7, start_stop: StartStop::Start });
    take(&mut demux, 1200, 0, TimelyEvent::Schedule { id: 7, start_stop: StartStop::Stop });
    assert_eq!(
        demux.output().schedules_duration,
        vec![
            logged(ScheduleRecord { id: 7, worker: 0 }, 10, 3),
            logged(ScheduleRecord { id: 7, worker: 0 }, 10, 1000),
        ]
    );
    assert_eq!(
        demux.output().schedules_histogram,
        vec![
            logged(HistogramRecord { id: 7, worker: 0, pow: 4 }, 10, 1),
            logged(HistogramRecord { id: 7, worker: 0, pow: 1024 }, 10, 1),
        ]
    );
    let buckets = &demux.state().schedules_data[&(7, 0)];
    assert_eq!(buckets.len(), 64);
    assert_eq!(buckets[2], (1, 3));
    assert_eq!(buckets[10], (1, 1000));

    take(&mut demux, 15 * MS, 0, TimelyEvent::Shutdown { id: 7 });
    assert_eq!(
        demux.output().operates[1],
        logged(OperatesRecord { id: 7, worker: 0, name: "map".to_string() }, 20, -1)
    );
    assert_eq!(
        demux.output().schedules_duration[2..],
        [
            logged(ScheduleRecord { id: 7, worker: 0 }, 20, -3),
            logged(ScheduleRecord { id: 7, worker: 0 }, 20, -1000),
        ]
    );
    assert_eq!(
        demux.output().schedules_histogram[2..],
        [
            logged(HistogramRecord { id: 7, worker: 0, pow: 4 }, 20, -1),
            logged(HistogramRecord { id: 7, worker: 0, pow: 1024 }, 20, -1),
        ]
    );
    assert_eq!(
        demux.output().addresses[1],
        logged(AddressRecord { id: 7, worker: 0, addr: vec![0, 3] }, 20, -1)
    );
    // The hash is announced again, with the same sign.
    assert_eq!(
        demux.output().address_validation[1],
        logged(AddressValidation { id: 7, hash: 99 }, 20, 1)
    );
    assert!(demux.state().operates_data.is_empty());
    assert!(demux.state().schedules_data.is_empty());
}

#[test]
fn dataflow_that_shuts_down_takes_its_channels_along() {
    let mut demux = TimelyDemux::new(10, 3);
    take(&mut demux, 0, 1, operates(4, vec![8], "dataflow", 1));
    take(&mut demux, 0, 1, channel(20, vec![8, 0], 2));
    take(&mut demux, 0, 1, channel(21, vec![8, 1], 3));
    // A channel of another dataflow stays.
    take(&mut demux, 0, 1, channel(30, vec![9], 4));
    let sent = |channel, target, length| {
        TimelyEvent::Messages(MessagesEvent { is_send: true, channel, source: 1, target, length })
    };
    let received = |channel, source, length| {
        TimelyEvent::Messages(MessagesEvent { is_send: false, channel, source, target: 1, length })
    };
    take(&mut demux, 0, 1, sent(20, 2, 5));
    take(&mut demux, 0, 1, sent(20, 2, 6));
    take(&mut demux, 0, 1, sent(20, 0, 1));
    take(&mut demux, 0, 1, received(21, 0, 7));
    take(&mut demux, 0, 1, sent(30, 0, 9));
    assert_eq!(demux.state().messages_sent_data[&(20, 1)], vec![1, 0, 11]);
    assert_eq!(demux.state().messages_received_data[&(21, 1)], vec![7, 0, 0]);
    assert_eq!(
        demux.output().messages_sent[1],
        logged(MessagesRecord { channel: 20, worker: 1, peer: 2 }, 10, 6)
    );
    let channels_before = demux.output().channels.len();
    let sent_before = demux.output().messages_sent.len();
    let received_before = demux.output().messages_received.len();

    take(&mut demux, 11 * MS, 1, TimelyEvent::Shutdown { id: 4 });
    let record = |id| ChannelsRecord {
        id,
        worker: 1,
        source_node: 1,
        source_port: 2,
        target_node: 3,
        target_port: 4,
    };
    assert_eq!(
        demux.output().channels[channels_before..],
        [logged(record(20), 20, -1), logged(record(21), 20, -1)]
    );
    assert_eq!(
        demux.output().messages_sent[sent_before..],
        [
            logged(MessagesRecord { channel: 20, worker: 1, peer: 0 }, 20, -1),
            logged(MessagesRecord { channel: 20, worker: 1, peer: 1 }, 20, 0),
            logged(MessagesRecord { channel: 20, worker: 1, peer: 2 }, 20, -11),
        ]
    );
    assert_eq!(
        demux.output().messages_received[received_before..],
        [
            logged(MessagesRecord { channel: 21, worker: 1, peer: 0 }, 20, -7),
            logged(MessagesRecord { channel: 21, worker: 1, peer: 1 }, 20, 0),
            logged(MessagesRecord { channel: 21, worker: 1, peer: 2 }, 20, 0),
        ]
    );
    let addresses: Vec<_> =
        demux.output().addresses.iter().filter(|l| l.diff < 0).map(|l| l.datum.addr.clone()).collect();
    assert_eq!(addresses, vec![vec![8, 0], vec![8, 1], vec![8]]);
    assert!(!demux.state().channels_data.contains_key(&(8, 1)));
    assert!(demux.state().channels_data.contains_key(&(9, 1)));
    assert!(!demux.state().messages_sent_data.contains_key(&(20, 1)));
    assert!(demux.state().messages_sent_data.contains_key(&(30, 1)));
}

#[test]
fn operator_below_a_dataflow_leaves_the_channels() {
    let mut demux = TimelyDemux::new(10, 1);
    take(&mut demux, 0, 0, operates(4, vec![8, 2], "inner", 1));
    take(&mut demux, 0, 0, channel(20, vec![8, 0], 2));
    take(&mut demux, 0, 0, TimelyEvent::Shutdown { id: 4 });
    assert_eq!(demux.output().channels.len(), 1);
    assert!(demux.state().channels_data.contains_key(&(8, 0)));
}

#[test]
fn worker_that_wakes_reports_how_long_it_was_parked() {
    let mut demux = TimelyDemux::new(10, 1);
    assert!(!demux.can_take(5, 3, &TimelyEvent::Park(ParkEvent::Unpark)));
    take(&mut demux, 100, 3, TimelyEvent::Park(ParkEvent::Park(Some(1000))));
    assert!(!demux.can_take(99, 3, &TimelyEvent::Park(ParkEvent::Unpark)));
    take(&mut demux, 700, 3, TimelyEvent::Park(ParkEvent::Unpark));
    assert_eq!(
        demux.output().parks,
        vec![logged(ParkRecord { worker: 3, duration_pow: 1024, requested_pow: Some(1024) }, 10, 1)]
    );
    take(&mut demux, 800, 3, TimelyEvent::Park(ParkEvent::Park(None)));
    take(&mut demux, 800, 3, TimelyEvent::Park(ParkEvent::Unpark));
    assert_eq!(
        demux.output().parks[1],
        logged(ParkRecord { worker: 3, duration_pow: 1, requested_pow: None }, 10, 1)
    );
    assert!(demux.state().parks_data.is_empty());
}

#[test]
fn timely_events_that_cannot_be_taken_are_told_apart() {
    let demux = TimelyDemux::new(0, 1);
    assert!(!demux.can_take(0, 0, &TimelyEvent::Other));
    let demux = TimelyDemux::new(u64::MAX, 1);
    assert!(demux.can_take(0, 0, &TimelyEvent::Other));
    let demux = TimelyDemux::new(u64::MAX - 1, 1);
    assert!(!demux.can_take((u64::MAX as u128) * MS, 0, &TimelyEvent::Other));
    let demux = TimelyDemux::new(10, 2);
    assert!(!demux.can_take(0, 0, &channel(1, Vec::new(), 0)));
    let stop = TimelyEvent::Schedule { id: 1, start_stop: StartStop::Stop };
    assert!(!demux.can_take(0, 0, &stop));
    let to_nobody = TimelyEvent::Messages(MessagesEvent {
        is_send: true,
        channel: 1,
        source: 0,
        target: 2,
        length: 1,
    });
    assert!(!demux.can_take(0, 0, &to_nobody));
    let too_many = TimelyEvent::Messages(MessagesEvent {
        is_send: false,
        channel: 1,
        source: 0,
        target: 1,
        length: usize::MAX,
    });
    assert!(!demux.can_take(0, 0, &too_many));
}

#[test]
fn one_address_for_each_operator() {
    assert_eq!(validate_addresses(&vec![(1, vec![10]), (2, vec![20])]), None);
    assert_eq!(validate_addresses(&vec![(1, vec![10]), (2, vec![20, 21]), (3, vec![])]), Some(2));
    assert_eq!(validate_addresses(&vec![(3, vec![])]), Some(3));
    assert_eq!(validate_addresses(&Vec::new()), None);
}

fn scalar(n: i64) -> LogDatum {
    LogDatum::Scalar(Some(n))
}

#[test]
fn address_row_holds_identifier_worker_and_the_path_as_a_list() {
    assert_eq!(
        create_address_row(1, 2, &[3, 4]),
        vec![scalar(1), scalar(2), LogDatum::List(vec![Some(3), Some(4)])]
    );
    assert_eq!(
        create_address_row(5, 1, &[0, 7, 2]),
        vec![scalar(5), scalar(1), LogDatum::List(vec![Some(0), Some(7), Some(2)])]
    );
    // An empty address is an empty list, not a missing column.
    assert_eq!(
        create_address_row(-1, 0, &[]),
        vec![scalar(-1), scalar(0), LogDatum::List(Vec::new())]
    );
}

#[test]
fn records_become_rows() {
    assert_eq!(Update { operator: 3, ts: 0, diff: 1 }.to_row(2), vec![scalar(3), scalar(2)]);
    let channel = ChannelsRecord {
        id: 1,
        worker: 2,
        source_node: 3,
        source_port: 4,
        target_node: 5,
        target_port: 6,
    };
    assert_eq!(
        channel.to_row(),
        vec![scalar(1), scalar(2), scalar(3), scalar(4), scalar(5), scalar(6)]
    );
    let park = ParkRecord { worker: 1, duration_pow: 8, requested_pow: None };
    assert_eq!(park.to_row(), vec![scalar(1), scalar(8), LogDatum::Scalar(None)]);
    let park = ParkRecord { worker: 1, duration_pow: 8, requested_pow: Some(16) };
    assert_eq!(park.to_row(), vec![scalar(1), scalar(8), scalar(16)]);
    let messages = MessagesRecord { channel: 9, worker: 1, peer: 0 };
    assert_eq!(messages.to_row(), vec![scalar(9), scalar(1), scalar(0)]);
    assert_eq!(ScheduleRecord { id: 4, worker: 5 }.to_row(), vec![scalar(4), scalar(5)]);
    let bucket = HistogramRecord { id: 4, worker: 5, pow: 1 << 40 };
    assert_eq!(bucket.to_row(), vec![scalar(4), scalar(5), scalar(1 << 40)]);
}

#[test]
fn arrangement_splits_a_row_into_key_and_value() {
    let key = vec![2, 0];
    let value = thinning(&key, 5);
    assert_eq!(value, vec![1, 3, 4]);
    assert_eq!(thinning(&Vec::new(), 2), vec![0, 1]);
    assert_eq!(thinning(&vec![0, 1, 7], 2), Vec::<usize>::new());
    let row = vec![scalar(10), LogDatum::Scalar(None), scalar(12), scalar(13), scalar(14)];
    assert_eq!(project(&row, &key), vec![scalar(12), scalar(10)]);
    assert_eq!(project(&row, &value), vec![LogDatum::Scalar(None), scalar(13), scalar(14)]);
    let address = create_address_row(7, 0, &[1, 2]);
    assert_eq!(project(&address, &vec![0, 1]), vec![scalar(7), scalar(0)]);
    assert_eq!(
        project(&address, &thinning(&vec![0, 1], 3)),
        vec![LogDatum::List(vec![Some(1), Some(2)])]
    );
}

#[test]
fn granularity_is_a_millisecond_at_least() {
    assert_eq!(granularity_ms(0), 1);
    assert_eq!(granularity_ms(999_999), 1);
    assert_eq!(granularity_ms(1_000_000), 1);
    assert_eq!(granularity_ms(25_999_999), 25);
    assert_eq!(logging_interval_ms(0), 1);
    assert_eq!(logging_interval_ms(1_999_999), 1);
    assert_eq!(logging_interval_ms(2_000_000), 2);
    assert_eq!(logging_interval_ms(u128::MAX), u128::MAX / 1_000_000);
}

#[test]
fn active_logs_are_kept_in_the_order_of_arrangement() {
    let active = vec![
        LogVariant::Timely(TimelyLog::Parks),
        LogVariant::Differential(DifferentialLog::Sharing),
        LogVariant::Timely(TimelyLog::Operates),
        LogVariant::Timely(TimelyLog::Parks),
    ];
    assert_eq!(
        timely_logs_kept(&active),
        vec![LogVariant::Timely(TimelyLog::Operates), LogVariant::Timely(TimelyLog::Parks)]
    );
    assert_eq!(
        differential_logs_kept(&active),
        vec![LogVariant::Differential(DifferentialLog::Sharing)]
    );
    assert_eq!(timely_logs_kept(&Vec::new()), Vec::new());
    let all = vec![
        LogVariant::Timely(TimelyLog::MessagesReceived),
        LogVariant::Timely(TimelyLog::MessagesSent),
        LogVariant::Timely(TimelyLog::Parks),
        LogVariant::Timely(TimelyLog::Addresses),
        LogVariant::Timely(TimelyLog::Histogram),
        LogVariant::Timely(TimelyLog::Elapsed),
        LogVariant::Timely(TimelyLog::Channels),
        LogVariant::Timely(TimelyLog::Operates),
    ];
    let mut turned = all.clone();
    turned.reverse();
    assert_eq!(timely_logs_kept(&all), turned);
}
