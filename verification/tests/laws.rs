use std::cell::{Cell, RefCell};

use gbat::battery::{
    battery_from_reply, battery_query_request, feature_lookup_from_reply, feature_lookup_request,
    lookup_result, query_result, session_lookup_request, session_query_request, BatteryFeature,
    BatteryRead, FeatureLookup, ReadAction,
};
use gbat::cli::{found_or_message, NOT_FOUND_MESSAGE, OFFLINE_MESSAGE};
use gbat::discovery::{
    device_index_candidate, Discover, DiscoverAction, Discovery, FeatureProbe, FeatureProbeAction,
    ProbeOutcome, ProbeSlot,
};
use gbat::exchange::{
    request_timeout, wait_millis, ExchangePhase, ExchangeStep, Reply, RequestExchange,
    DISCOVERY_BUDGET, FLUSH_WINDOW, RESPONSE_TIMEOUT,
};
use gbat::hidpp::{
    function_byte, is_error_marker, short_report, BatteryStatus, HidppError, ProtocolError,
    DEFAULT_SW_ID, FEATURE_BATTERY_STATUS, FEATURE_UNIFIED_BATTERY, REPORT_ID_SHORT,
};
use gbat::interfaces::{candidate_interfaces, InterfaceInfo};
use gbat::probing::discover_interfaces;

const MILLI: u64 = 1_000_000;

type Fail = &'static str;

type Error = HidppError<Fail>;

fn lookup_exchange(timeout: u64) -> RequestExchange {
    feature_lookup_request(1, DEFAULT_SW_ID, FEATURE_UNIFIED_BATTERY, timeout)
}

/// Starts `exchange` at `start` and feeds it an empty flush read and a full
/// write, leaving it waiting for the reply.
fn awaiting(exchange: &mut RequestExchange, start: u64) {
    assert!(matches!(exchange.start::<Fail>(start), ExchangeStep::Read { timeout_ms: 0 }));
    assert!(matches!(exchange.on_read::<Fail>(&[], start), ExchangeStep::Write { .. }));
    exchange.on_write::<Fail>(7, start);
}

#[test]
fn function_byte_packs_function_and_software_id() {
    assert_eq!(function_byte(0, DEFAULT_SW_ID), 0x0F);
    assert_eq!(function_byte(1, DEFAULT_SW_ID), 0x1F);
    assert_eq!(function_byte(0x23, 0x45), 0x35);
    assert_eq!(function_byte(0xFF, 0xFF), 0xFF);
}

#[test]
fn both_error_markers_are_recognized() {
    assert!(is_error_marker(0x8F));
    assert!(is_error_marker(0xFF));
    assert!(!is_error_marker(0x00));
    assert!(!is_error_marker(0x10));
}

#[test]
fn lookup_request_carries_the_feature_id_big_endian() {
    let mut exchange = feature_lookup_request(3, DEFAULT_SW_ID, FEATURE_UNIFIED_BATTERY, 5 * MILLI);
    assert_eq!(exchange.timeout, 5 * MILLI);
    exchange.start::<Fail>(0);
    let ExchangeStep::Write { report } = exchange.on_read::<Fail>(&[], 0) else {
        panic!("an empty flush read should lead to the write");
    };
    assert_eq!(report, vec![REPORT_ID_SHORT, 3, 0, 0x0F, 0x10, 0x04, 0]);
    assert_eq!(short_report(3, 0, 0x0F, [0x10, 0x04, 0]), report);
}

#[test]
fn battery_requests_use_the_feature_function() {
    let unified = battery_query_request(1, DEFAULT_SW_ID, BatteryFeature::Unified(5));
    assert_eq!((unified.feature_index, unified.function_byte), (5, 0x1F));
    let legacy = battery_query_request(1, DEFAULT_SW_ID, BatteryFeature::Legacy(6));
    assert_eq!((legacy.feature_index, legacy.function_byte), (6, 0x0F));
    assert_eq!(legacy.timeout, RESPONSE_TIMEOUT);
    assert_eq!(legacy.payload, [0, 0, 0]);
}

#[test]
fn flush_reads_never_wait_and_end_at_the_window() {
    let mut exchange = lookup_exchange(RESPONSE_TIMEOUT);
    let stale = [REPORT_ID_SHORT, 1, 5, 0x1F, 8, 0, 0, 0];
    assert!(matches!(exchange.start::<Fail>(10), ExchangeStep::Read { timeout_ms: 0 }));
    assert!(matches!(exchange.on_read::<Fail>(&stale, 10 + FLUSH_WINDOW - 1), ExchangeStep::Read { timeout_ms: 0 }));
    assert!(matches!(exchange.on_read::<Fail>(&stale, 10 + FLUSH_WINDOW), ExchangeStep::Write { .. }));
    assert_eq!(exchange.phase, ExchangePhase::Writing);
}

#[test]
fn a_reply_is_the_matching_report_as_read() {
    let mut exchange = lookup_exchange(RESPONSE_TIMEOUT);
    awaiting(&mut exchange, 0);
    let reply = [REPORT_ID_SHORT, 1, 0, 0x0F, 5, 0, 0, 9, 9];
    let ExchangeStep::Finished(Reply::Response(report)) = exchange.on_read::<Fail>(&reply, 1) else {
        panic!("a matching report should answer the request");
    };
    assert_eq!(report, reply.to_vec());
    assert_eq!(exchange.phase, ExchangePhase::Done);
}

#[test]
fn error_reports_end_the_wait_as_offline_or_device_error() {
    let mut exchange = lookup_exchange(RESPONSE_TIMEOUT);
    awaiting(&mut exchange, 0);
    let offline = [REPORT_ID_SHORT, 1, 0x8F, 0x00, 0x0F, 0x08, 0x00];
    assert!(matches!(exchange.on_read::<Fail>(&offline, 1), ExchangeStep::Finished(Reply::Offline)));

    let mut exchange = lookup_exchange(RESPONSE_TIMEOUT);
    awaiting(&mut exchange, 0);
    let rejected = [REPORT_ID_SHORT, 1, 0x8F, 0x00, 0x0F, 0x02, 0x00];
    assert!(matches!(exchange.on_read::<Fail>(&rejected, 1), ExchangeStep::Finished(Reply::DeviceError)));
}

#[test]
fn silence_comes_only_at_the_reply_deadline() {
    let mut exchange = lookup_exchange(RESPONSE_TIMEOUT);
    awaiting(&mut exchange, 100);
    let deadline = 100 + RESPONSE_TIMEOUT;
    assert_eq!(exchange.phase, ExchangePhase::Awaiting { deadline });
    let unrelated = [REPORT_ID_SHORT, 2, 0, 0x0F, 5, 0, 0];
    assert!(matches!(
        exchange.on_read::<Fail>(&unrelated, deadline - MILLI - 1),
        ExchangeStep::Read { timeout_ms: 1 }
    ));
    assert!(matches!(exchange.on_read::<Fail>(&[], deadline - 1), ExchangeStep::Read { timeout_ms: 0 }));
    assert_eq!(exchange.phase, ExchangePhase::Awaiting { deadline });
    assert!(matches!(exchange.on_read::<Fail>(&[], deadline), ExchangeStep::Finished(Reply::Silence)));
}

#[test]
fn a_partial_write_ends_the_exchange() {
    let mut exchange = lookup_exchange(RESPONSE_TIMEOUT);
    exchange.start::<Fail>(0);
    exchange.on_read::<Fail>(&[], 0);
    assert!(matches!(
        exchange.on_write::<Fail>(3, 0),
        ExchangeStep::Failed(HidppError::ShortWrite {
            expected: 7,
            actual: 3
        })
    ));
    assert_eq!(exchange.phase, ExchangePhase::Done);
}

#[test]
fn waits_are_whole_milliseconds_capped_at_i32_max() {
    assert_eq!(wait_millis(0), 0);
    assert_eq!(wait_millis(MILLI - 1), 0);
    assert_eq!(wait_millis(1_500 * MILLI), 1_500);
    assert_eq!(wait_millis(u64::MAX), i32::MAX);
    assert_eq!(request_timeout(10, 10 + 400 * MILLI), 400 * MILLI);
    assert_eq!(request_timeout(10 + DISCOVERY_BUDGET, 10), 0);
}

#[test]
fn replies_decode_into_lookups_and_statuses() {
    let index = Reply::Response(vec![REPORT_ID_SHORT, 1, 0, 0x0F, 6, 0, 0]);
    assert_eq!(feature_lookup_from_reply(&index), Ok(FeatureLookup::Index(6)));
    let zero = Reply::Response(vec![REPORT_ID_SHORT, 1, 0, 0x0F, 0, 0, 0]);
    assert_eq!(feature_lookup_from_reply(&zero), Ok(FeatureLookup::Unsupported));
    assert_eq!(feature_lookup_from_reply(&Reply::DeviceError), Ok(FeatureLookup::Unsupported));
    assert_eq!(feature_lookup_from_reply(&Reply::Offline), Ok(FeatureLookup::Offline));
    assert_eq!(feature_lookup_from_reply(&Reply::Silence), Ok(FeatureLookup::Silent));
    let short = Reply::Response(vec![REPORT_ID_SHORT, 1, 0, 0x0F]);
    assert_eq!(
        feature_lookup_from_reply(&short),
        Err(ProtocolError::ShortResponse { minimum: 5, actual: 4 })
    );

    let battery = Reply::Response(vec![REPORT_ID_SHORT, 1, 6, 0x0F, 42, 0, 3]);
    assert_eq!(
        battery_from_reply(BatteryFeature::Legacy(6), &battery),
        Ok(Some(BatteryStatus { level: 42, charging: true }))
    );
    assert_eq!(
        battery_from_reply(BatteryFeature::Unified(5), &battery),
        Err(ProtocolError::ShortResponse { minimum: 8, actual: 7 })
    );
    assert_eq!(battery_from_reply(BatteryFeature::Unified(5), &Reply::Silence), Ok(None));
}

/// Runs a battery read against scripted answers and returns the actions it
/// asked for and its outcome.
fn run_read(
    selected: BatteryFeature,
    mut queries: Vec<Result<Option<BatteryStatus>, Error>>,
    mut lookups: Vec<Result<Option<u8>, Error>>,
) -> (Vec<ReadAction<&'static str>>, Result<Option<BatteryStatus>, Error>) {
    queries.reverse();
    lookups.reverse();
    let mut read = BatteryRead::new();
    let mut asked = Vec::new();
    let mut action = read.start(selected);
    loop {
        match action {
            ReadAction::Query(feature) => {
                asked.push(ReadAction::Query(feature));
                action = read.on_query(queries.pop().expect("query answer"));
            }
            ReadAction::Discover(feature_id) => {
                asked.push(ReadAction::Discover(feature_id));
                action = read.on_discover(lookups.pop().expect("lookup answer"));
            }
            ReadAction::Done(result) => return (asked, result),
        }
    }
}

#[test]
fn a_read_reports_only_statuses_that_a_query_returned() {
    let status = BatteryStatus { level: 12, charging: false };
    let (_, result) = run_read(BatteryFeature::Unified(5), vec![Ok(None), Ok(None)], vec![Ok(Some(6))]);
    assert_eq!(result, Ok(None));
    let (_, result) = run_read(BatteryFeature::Unified(5), vec![Ok(None), Ok(Some(status))], vec![Ok(Some(6))]);
    assert_eq!(result, Ok(Some(status)));
}

#[test]
fn a_lookup_failure_after_missing_unified_status_is_the_read_error() {
    let (asked, result) = run_read(BatteryFeature::Unified(5), vec![Ok(None)], vec![Err(HidppError::Hid("gone"))]);
    assert_eq!(result, Err(HidppError::Hid("gone")));
    assert_eq!(asked.len(), 2);
    let (_, result) = run_read(BatteryFeature::Unified(5), vec![Ok(None)], vec![Ok(None)]);
    assert_eq!(result, Ok(None));
}

#[test]
fn a_decoding_error_stands_over_a_failed_lookup_decoding() {
    let unified = ProtocolError::ShortResponse { minimum: 8, actual: 7 };
    let (_, result) = run_read(
        BatteryFeature::Unified(5),
        vec![Err(HidppError::Protocol(unified))],
        vec![Err(HidppError::Protocol(ProtocolError::ShortResponse { minimum: 5, actual: 4 }))],
    );
    assert_eq!(result, Err(HidppError::Protocol(unified)));
    let (_, result) = run_read(
        BatteryFeature::Unified(5),
        vec![Err(HidppError::Protocol(unified))],
        vec![Err(HidppError::ShortWrite { expected: 7, actual: 1 })],
    );
    assert_eq!(result, Err(HidppError::ShortWrite { expected: 7, actual: 1 }));
}

#[test]
fn a_selected_legacy_feature_failure_is_final() {
    let (asked, result) = run_read(BatteryFeature::Legacy(6), vec![Ok(None)], Vec::new());
    assert_eq!(asked, vec![ReadAction::Query(BatteryFeature::Legacy(6))]);
    assert_eq!(result, Ok(None));
}

#[test]
fn a_read_asks_for_at_most_three_operations() {
    let unified = HidppError::Protocol(ProtocolError::ShortResponse { minimum: 8, actual: 7 });
    let (asked, _) = run_read(BatteryFeature::Unified(5), vec![Err(unified), Ok(None)], vec![Ok(Some(6))]);
    assert_eq!(
        asked,
        vec![
            ReadAction::Query(BatteryFeature::Unified(5)),
            ReadAction::Discover(FEATURE_BATTERY_STATUS),
            ReadAction::Query(BatteryFeature::Legacy(6)),
        ]
    );
}

#[test]
fn silent_unified_lookup_ends_the_probe_as_absent() {
    let mut probe = FeatureProbe::new(1, DISCOVERY_BUDGET);
    let FeatureProbeAction::Lookup(first) = probe.start::<Fail>(0) else {
        panic!("the probe starts with a lookup");
    };
    assert_eq!(first.payload, [0x10, 0x04, 0]);
    assert_eq!(first.timeout, RESPONSE_TIMEOUT);
    assert!(matches!(
        probe.on_lookup::<Fail>(Ok(FeatureLookup::Silent), RESPONSE_TIMEOUT),
        FeatureProbeAction::Done(Ok(ProbeOutcome::Absent))
    ));
}

#[test]
fn unsupported_unified_leads_to_a_legacy_lookup_within_the_budget() {
    let mut probe = FeatureProbe::new(1, 400 * MILLI);
    probe.start::<Fail>(0);
    let FeatureProbeAction::Lookup(second) = probe.on_lookup::<Fail>(Ok(FeatureLookup::Unsupported), 100 * MILLI) else {
        panic!("an unsupported UNIFIED_BATTERY leads to the BATTERY_STATUS lookup");
    };
    assert_eq!(second.payload, [0x10, 0x00, 0]);
    assert_eq!(second.timeout, 300 * MILLI);
    assert!(matches!(
        probe.on_lookup::<Fail>(Ok(FeatureLookup::Offline), 200 * MILLI),
        FeatureProbeAction::Done(Ok(ProbeOutcome::Offline))
    ));
    let mut probe = FeatureProbe::new(1, 400 * MILLI);
    probe.start::<Fail>(0);
    probe.on_lookup::<Fail>(Ok(FeatureLookup::Unsupported), 0);
    assert!(matches!(
        probe.on_lookup::<Fail>(Ok(FeatureLookup::Unsupported), 0),
        FeatureProbeAction::Done(Ok(ProbeOutcome::Absent))
    ));
}

/// Runs discovery with `outcome` deciding each probe, on a clock that
/// advances one unit per probe.
fn run_discovery(
    interface_count: usize,
    deadline: u64,
    mut outcome: impl FnMut(usize, u8) -> Result<ProbeOutcome<u8>, &'static str>,
) -> (Vec<(usize, u8)>, Result<Discovery<u8>, &'static str>) {
    let mut discovery = Discover::new(interface_count, deadline);
    let mut probes = Vec::new();
    let mut action = discovery.start(0);
    loop {
        match action {
            DiscoverAction::Probe { interface, device_index } => {
                probes.push((interface, device_index));
                let result = outcome(interface, device_index);
                action = discovery.on_probe(result, probes.len() as u64);
            }
            DiscoverAction::Done(result) => return (probes, result),
        }
    }
}

#[test]
fn discovery_probes_index_major_and_at_most_seven_per_interface() {
    let (probes, result) = run_discovery(2, u64::MAX, |_, _| Ok(ProbeOutcome::Absent));
    assert_eq!(result, Ok(Discovery::NotFound));
    let expected: Vec<(usize, u8)> = [1, 0xFF, 2, 3, 4, 5, 6]
        .into_iter()
        .flat_map(|index| [(0, index), (1, index)])
        .collect();
    assert_eq!(probes, expected);
    assert_eq!(
        (0..7).map(device_index_candidate).collect::<Vec<_>>(),
        vec![1, 0xFF, 2, 3, 4, 5, 6]
    );
}

#[test]
fn discovery_without_interfaces_finds_nothing() {
    let (probes, result) = run_discovery(0, u64::MAX, |_, _| Ok(ProbeOutcome::Absent));
    assert!(probes.is_empty());
    assert_eq!(result, Ok(Discovery::NotFound));
}

#[test]
fn a_spent_budget_starts_no_probe() {
    let (probes, result) = run_discovery(3, 0, |_, _| Ok(ProbeOutcome::Absent));
    assert!(probes.is_empty());
    assert_eq!(result, Ok(Discovery::NotFound));
    let (probes, _) = run_discovery(3, 2, |_, _| Ok(ProbeOutcome::Absent));
    assert_eq!(probes, vec![(0, 1), (1, 1)]);
}

#[test]
fn the_last_error_is_reported_when_nothing_was_found() {
    let (_, result) = run_discovery(2, u64::MAX, |interface, index| match (interface, index) {
        (0, 1) => Err("first"),
        (1, 6) => Err("last"),
        _ => Ok(ProbeOutcome::Absent),
    });
    assert_eq!(result, Err("last"));
    let (_, result) = run_discovery(2, u64::MAX, |interface, index| match (interface, index) {
        (1, 6) => Ok(ProbeOutcome::Offline),
        _ => Err("error"),
    });
    assert_eq!(result, Ok(Discovery::Offline));
}

#[test]
fn a_find_ends_discovery_at_once() {
    let (probes, result) = run_discovery(2, u64::MAX, |interface, index| match (interface, index) {
        (0, 0xFF) => Ok(ProbeOutcome::Found(9)),
        _ => Err("error"),
    });
    assert_eq!(probes, vec![(0, 1), (1, 1), (0, 0xFF)]);
    assert_eq!(result, Ok(Discovery::Found(9)));
}

fn info(vendor_id: u16, usage_page: u16, product_id: u16, interface_number: i32, path: &[u8]) -> InterfaceInfo {
    InterfaceInfo {
        vendor_id,
        usage_page,
        product_id,
        interface_number,
        path: path.to_vec(),
    }
}

#[test]
fn candidates_are_logitech_hidpp_interfaces_in_a_stable_order() {
    let infos = vec![
        info(0x046D, 0xFF00, 0xC547, 2, b"b"),
        info(0x046D, 0x0001, 0xC547, 0, b"a"),
        info(0x1234, 0xFF00, 0x0001, 0, b"a"),
        info(0x046D, 0xFF00, 0xC547, 2, b"ab"),
        info(0x046D, 0xFF00, 0xC539, 7, b"z"),
        info(0x046D, 0xFF00, 0xC547, 1, b"zz"),
        info(0x046D, 0xFF00, 0xC547, 2, b"a"),
        info(0x046D, 0xFF00, 0xC547, 2, b"b"),
        info(0x046D, 0xFF00, 0xC547, -1, b""),
    ];
    assert_eq!(candidate_interfaces(&infos), vec![4, 8, 5, 6, 3, 0, 7]);
    assert!(candidate_interfaces(&[]).is_empty());
}

#[test]
fn a_failed_open_is_reported_once_and_then_skipped() {
    let mut slot: ProbeSlot<u8> = ProbeSlot::new();
    assert!(slot.needs_open());
    assert_eq!(slot.record_open(Err::<u8, &str>("denied")), Err("denied"));
    assert!(!slot.needs_open());
    assert_eq!(slot.device(), None);

    let mut slot: ProbeSlot<u8> = ProbeSlot::new();
    assert_eq!(slot.record_open::<&str>(Ok(4)), Ok(()));
    assert_eq!(slot.device(), Some(&4));
    assert_eq!(slot.take(), Some(4));
    assert_eq!(slot.take(), None);
    assert!(!slot.needs_open());
}

#[test]
fn a_failed_read_or_write_ends_the_exchange_with_the_device_error() {
    let mut exchange = lookup_exchange(RESPONSE_TIMEOUT);
    exchange.start::<Fail>(0);
    assert!(matches!(
        exchange.on_failure("unplugged"),
        ExchangeStep::Failed(HidppError::Hid("unplugged"))
    ));
    assert_eq!(exchange.phase, ExchangePhase::Done);
    assert!(!exchange.awaits_read_now());
    assert!(!exchange.awaits_write());

    let mut exchange = lookup_exchange(RESPONSE_TIMEOUT);
    exchange.start::<Fail>(0);
    exchange.on_read::<Fail>(&[], 0);
    assert!(matches!(
        exchange.on_failure("denied"),
        ExchangeStep::Failed(HidppError::Hid("denied"))
    ));
    assert_eq!(exchange.phase, ExchangePhase::Done);
}

#[test]
fn exchange_failures_reach_lookups_and_queries_unchanged() {
    let failure: Result<Reply, Error> = Err(HidppError::ShortWrite { expected: 7, actual: 2 });
    assert_eq!(
        lookup_result(failure),
        Err(HidppError::ShortWrite { expected: 7, actual: 2 })
    );
    let failure: Result<Reply, Error> = Err(HidppError::Hid("gone"));
    assert_eq!(
        query_result(BatteryFeature::Unified(5), failure),
        Err(HidppError::Hid("gone"))
    );
    let short: Result<Reply, Error> = Ok(Reply::Response(vec![REPORT_ID_SHORT, 1, 0, 0x0F]));
    assert_eq!(
        lookup_result(short),
        Err(HidppError::Protocol(ProtocolError::ShortResponse { minimum: 5, actual: 4 }))
    );
    let legacy: Result<Reply, Error> =
        Ok(Reply::Response(vec![REPORT_ID_SHORT, 1, 6, 0x0F, 55, 0, 0]));
    assert_eq!(
        query_result(BatteryFeature::Legacy(6), legacy),
        Ok(Some(BatteryStatus { level: 55, charging: false }))
    );
}

#[test]
fn a_failed_lookup_ends_the_probe_with_its_error() {
    let mut probe = FeatureProbe::new(1, DISCOVERY_BUDGET);
    probe.start::<Fail>(0);
    assert!(matches!(
        probe.on_lookup::<Fail>(Err(HidppError::Hid("gone")), 0),
        FeatureProbeAction::Done(Err(HidppError::Hid("gone")))
    ));
}

#[test]
fn battery_read_requests_wait_the_full_response_timeout() {
    let lookup = session_lookup_request(1, FEATURE_BATTERY_STATUS);
    assert_eq!(lookup.timeout, RESPONSE_TIMEOUT);
    assert_eq!(lookup.payload, [0x10, 0x00, 0]);
    assert_eq!((lookup.feature_index, lookup.function_byte), (0, 0x0F));
    let query = session_query_request(0xFF, BatteryFeature::Unified(9));
    assert_eq!(query.timeout, RESPONSE_TIMEOUT);
    assert_eq!((query.device_index, query.feature_index, query.function_byte), (0xFF, 9, 0x1F));
}

#[test]
fn discovery_outcomes_choose_the_message() {
    assert_eq!(found_or_message(Discovery::Found(3)), Ok(3));
    assert_eq!(found_or_message::<u8>(Discovery::Offline), Err(OFFLINE_MESSAGE));
    assert_eq!(found_or_message::<u8>(Discovery::NotFound), Err(NOT_FOUND_MESSAGE));
}

#[test]
fn each_interface_is_opened_at_most_once() {
    let mut opens = 0;
    let mut slot: ProbeSlot<u8> = ProbeSlot::new();
    for _ in 0..3 {
        let result = slot.ensure_open(|| {
            opens += 1;
            Err::<u8, &str>("denied")
        });
        if opens == 1 && result.is_err() {
            assert_eq!(result, Err("denied"));
        } else {
            assert_eq!(result, Ok(()));
        }
    }
    assert_eq!(opens, 1);
    assert_eq!(slot.device(), None);

    let mut opens = 0;
    let mut slot: ProbeSlot<u8> = ProbeSlot::new();
    for _ in 0..3 {
        assert_eq!(
            slot.ensure_open(|| {
                opens += 1;
                Ok::<u8, &str>(7)
            }),
            Ok(())
        );
        assert_eq!(slot.device(), Some(&7));
    }
    assert_eq!(opens, 1);
    assert_eq!(slot.take(), Some(7));
    assert_eq!(slot.ensure_open(|| Ok::<u8, &str>(8)), Ok(()));
    assert_eq!(slot.device(), None);
}

#[test]
fn discovery_over_slots_opens_each_interface_once_and_hands_over_the_found_device() {

    let opens = RefCell::new(Vec::new());
    let probes = RefCell::new(Vec::new());
    let result = discover_interfaces(
        2,
        u64::MAX,
        |interface: usize| {
            opens.borrow_mut().push(interface);
            if interface == 0 {
                Err("denied")
            } else {
                Ok(10_u8)
            }
        },
        |device: &u8, device_index: u8| {
            probes.borrow_mut().push((*device, device_index));
            if device_index == 0xFF {
                Ok(ProbeOutcome::Found("feature"))
            } else {
                Ok(ProbeOutcome::Absent)
            }
        },
        || 0,
    );
    let Ok(Discovery::Found(found)) = result else {
        panic!("the probe of 0xFF on the second interface finds the mouse");
    };
    assert_eq!(
        (found.device, found.interface, found.device_index, found.found),
        (10, 1, 0xFF, "feature")
    );
    assert_eq!(*opens.borrow(), vec![0, 1]);
    assert_eq!(*probes.borrow(), vec![(10, 1), (10, 0xFF)]);
}

#[test]
fn discovery_over_slots_reports_offline_before_errors_and_nothing_for_no_interfaces() {

    let opens = Cell::new(0);
    let result = discover_interfaces(
        2,
        u64::MAX,
        |interface: usize| {
            opens.set(opens.get() + 1);
            Ok::<usize, &str>(interface)
        },
        |device: &usize, device_index: u8| -> Result<ProbeOutcome<()>, &str> {
            if *device == 0 && device_index == 3 {
                Ok(ProbeOutcome::Offline)
            } else {
                Err("no answer")
            }
        },
        || 0,
    );
    assert!(matches!(result, Ok(Discovery::Offline)));
    assert_eq!(opens.get(), 2);

    let result = discover_interfaces(
        2,
        u64::MAX,
        |_: usize| Err::<u8, &str>("denied"),
        |_: &u8, _: u8| Ok::<ProbeOutcome<()>, &str>(ProbeOutcome::Absent),
        || 0,
    );
    assert!(matches!(result, Err("denied")));

    let result = discover_interfaces(
        0,
        u64::MAX,
        |_: usize| -> Result<u8, &str> { panic!("no interface to open") },
        |_: &u8, _: u8| Ok::<ProbeOutcome<()>, &str>(ProbeOutcome::Absent),
        || 0,
    );
    assert!(matches!(result, Ok(Discovery::NotFound)));
}

#[test]
fn discovery_over_slots_stops_at_the_deadline() {

    let clock = Cell::new(0_u64);
    let probes = Cell::new(0);
    let result = discover_interfaces(
        1,
        3,
        |_: usize| Ok::<u8, &str>(1),
        |_: &u8, _: u8| {
            probes.set(probes.get() + 1);
            clock.set(clock.get() + 1);
            Ok::<ProbeOutcome<()>, &str>(ProbeOutcome::Absent)
        },
        || clock.get(),
    );
    assert!(matches!(result, Ok(Discovery::NotFound)));
    assert_eq!(probes.get(), 3);
}
