//! The battery features: the requests that look a feature up and query a
//! battery, how their replies are read, and how a battery read falls back
//! from UNIFIED_BATTERY to BATTERY_STATUS.

use vstd::prelude::*;

use crate::exchange::{spec_outcome_view, ExchangePhase, Reply, ReplyView, RequestExchange, RESPONSE_TIMEOUT};
use crate::hidpp::{
    lemma_battery_status_layout, lemma_feature_index_layout, lemma_unified_battery_layout,
    parse_battery_status, parse_feature_index, parse_unified_battery, spec_function_byte,
    spec_parse_battery_status, spec_parse_feature_index, spec_parse_unified_battery,
    BatteryStatus, HidppError, ProtocolError, DEFAULT_SW_ID, FEATURE_BATTERY_STATUS, FEATURE_ROOT,
};

verus! {

/// The battery feature a device offers, with its feature index.
#[derive(Debug, Clone, Copy, PartialEq, Eq, Structural)]
pub enum BatteryFeature {
    Unified(u8),
    Legacy(u8),
}

/// Outcome of a root-feature lookup.
#[derive(Debug, Clone, Copy, PartialEq, Eq, Structural)]
pub enum FeatureLookup {
    Index(u8),
    Unsupported,
    Offline,
    Silent,
}

/// The root feature's answer to a lookup: a reply names the index or says
/// the feature is missing, an error report means the feature is missing.
pub open spec fn spec_feature_lookup(reply: ReplyView) -> Result<FeatureLookup, ProtocolError> {
    match reply {
        ReplyView::Response(report) => match spec_parse_feature_index(report) {
            Ok(Some(index)) => Ok(FeatureLookup::Index(index)),
            Ok(None) => Ok(FeatureLookup::Unsupported),
            Err(error) => Err(error),
        },
        ReplyView::DeviceError => Ok(FeatureLookup::Unsupported),
        ReplyView::Offline => Ok(FeatureLookup::Offline),
        ReplyView::Silence => Ok(FeatureLookup::Silent),
    }
}

/// A battery reply decoded by the feature's own layout; an error report,
/// offline receiver or silence gives no status.
pub open spec fn spec_battery_reply(feature: BatteryFeature, reply: ReplyView) -> Result<Option<BatteryStatus>, ProtocolError> {
    match reply {
        ReplyView::Response(report) => {
            let parsed = match feature {
                BatteryFeature::Unified(_) => spec_parse_unified_battery(report),
                BatteryFeature::Legacy(_) => spec_parse_battery_status(report),
            };
            match parsed {
                Ok(status) => Ok(Some(status)),
                Err(error) => Err(error),
            }
        },
        _ => Ok(None),
    }
}

/// The feature index a lookup found, if any.
pub open spec fn spec_discovered_index(lookup: FeatureLookup) -> Option<u8> {
    match lookup {
        FeatureLookup::Index(index) => Some(index),
        _ => None,
    }
}

/// The request that asks the root feature of `device_index` for the index
/// of `feature_id`: function 0 with the feature ID in big-endian order.
pub fn feature_lookup_request(device_index: u8, sw_id: u8, feature_id: u16, timeout: u64) -> (r: RequestExchange)
    ensures
        r.device_index == device_index,
        r.feature_index == FEATURE_ROOT as u8,
        r.function_byte == spec_function_byte(0, sw_id),
        r.payload == [(feature_id / 256) as u8, (feature_id % 256) as u8, 0u8],
        r.timeout == timeout,
        r.phase == ExchangePhase::Ready,
{
    let high = (feature_id / 256) as u8;
    let low = (feature_id % 256) as u8;
    RequestExchange::new(device_index, 0, 0, sw_id, [high, low, 0], timeout)
}

/// The request that reads the battery through `feature`: function 1 of
/// UNIFIED_BATTERY or function 0 of BATTERY_STATUS, with an empty payload.
pub fn battery_query_request(device_index: u8, sw_id: u8, feature: BatteryFeature) -> (r: RequestExchange)
    ensures
        r.device_index == device_index,
        r.feature_index == (match feature {
            BatteryFeature::Unified(index) => index,
            BatteryFeature::Legacy(index) => index,
        }),
        r.function_byte == spec_function_byte(
            match feature {
                BatteryFeature::Unified(_) => 1u8,
                BatteryFeature::Legacy(_) => 0u8,
            },
            sw_id,
        ),
        r.payload == [0u8, 0u8, 0u8],
        r.timeout == RESPONSE_TIMEOUT,
        r.phase == ExchangePhase::Ready,
{
    let (feature_index, function) = match feature {
        BatteryFeature::Unified(index) => (index, 1u8),
        BatteryFeature::Legacy(index) => (index, 0u8),
    };
    RequestExchange::new(device_index, feature_index, function, sw_id, [0, 0, 0], RESPONSE_TIMEOUT)
}

pub fn feature_lookup_from_reply(reply: &Reply) -> (r: Result<FeatureLookup, ProtocolError>)
    ensures
        r == spec_feature_lookup(reply@),
{
    match reply {
        Reply::Response(report) => match parse_feature_index(report.as_slice()) {
            Ok(Some(index)) => Ok(FeatureLookup::Index(index)),
            Ok(None) => Ok(FeatureLookup::Unsupported),
            Err(error) => Err(error),
        },
        Reply::DeviceError => Ok(FeatureLookup::Unsupported),
        Reply::Offline => Ok(FeatureLookup::Offline),
        Reply::Silence => Ok(FeatureLookup::Silent),
    }
}

pub fn battery_from_reply(feature: BatteryFeature, reply: &Reply) -> (r: Result<Option<BatteryStatus>, ProtocolError>)
    ensures
        r == spec_battery_reply(feature, reply@),
{
    match reply {
        Reply::Response(report) => {
            let parsed = match feature {
                BatteryFeature::Unified(_) => parse_unified_battery(report.as_slice()),
                BatteryFeature::Legacy(_) => parse_battery_status(report.as_slice()),
            };
            match parsed {
                Ok(status) => Ok(Some(status)),
                Err(error) => Err(error),
            }
        },
        _ => Ok(None),
    }
}

pub fn discovered_index(lookup: FeatureLookup) -> (r: Option<u8>)
    ensures
        r == spec_discovered_index(lookup),
        r is Some <==> lookup is Index,
        lookup matches FeatureLookup::Index(index) ==> r == Some(index),
{
    match lookup {
        FeatureLookup::Index(index) => Some(index),
        _ => None,
    }
}

/// What a lookup comes to: the decoded reply, or the failure that ended
/// the exchange, unchanged.
pub open spec fn spec_lookup_result<E>(outcome: Result<ReplyView, HidppError<E>>) -> Result<FeatureLookup, HidppError<E>> {
    match outcome {
        Ok(reply) => match spec_feature_lookup(reply) {
            Ok(lookup) => Ok(lookup),
            Err(error) => Err(HidppError::Protocol(error)),
        },
        Err(error) => Err(error),
    }
}

/// What a battery query through `feature` comes to: the reply decoded by
/// that feature's layout, or the failure that ended the exchange,
/// unchanged.
pub open spec fn spec_query_result<E>(feature: BatteryFeature, outcome: Result<ReplyView, HidppError<E>>) -> Result<Option<BatteryStatus>, HidppError<E>> {
    match outcome {
        Ok(reply) => match spec_battery_reply(feature, reply) {
            Ok(status) => Ok(status),
            Err(error) => Err(HidppError::Protocol(error)),
        },
        Err(error) => Err(error),
    }
}

pub fn lookup_result<E>(outcome: Result<Reply, HidppError<E>>) -> (r: Result<FeatureLookup, HidppError<E>>)
    ensures
        r == spec_lookup_result(spec_outcome_view(outcome)),
{
    match outcome {
        Ok(reply) => match feature_lookup_from_reply(&reply) {
            Ok(lookup) => Ok(lookup),
            Err(error) => Err(HidppError::Protocol(error)),
        },
        Err(error) => Err(error),
    }
}

pub fn query_result<E>(feature: BatteryFeature, outcome: Result<Reply, HidppError<E>>) -> (r: Result<Option<BatteryStatus>, HidppError<E>>)
    ensures
        r == spec_query_result(feature, spec_outcome_view(outcome)),
{
    match outcome {
        Ok(reply) => match battery_from_reply(feature, &reply) {
            Ok(status) => Ok(status),
            Err(error) => Err(HidppError::Protocol(error)),
        },
        Err(error) => Err(error),
    }
}

/// The lookup a battery read makes on `device_index` when it asks for
/// `feature_id`: this software's ID, waiting one full response timeout.
pub fn session_lookup_request(device_index: u8, feature_id: u16) -> (r: RequestExchange)
    ensures
        r.device_index == device_index,
        r.feature_index == FEATURE_ROOT as u8,
        r.function_byte == spec_function_byte(0, DEFAULT_SW_ID),
        r.payload == [(feature_id / 256) as u8, (feature_id % 256) as u8, 0u8],
        r.timeout == RESPONSE_TIMEOUT,
        r.phase == ExchangePhase::Ready,
{
    feature_lookup_request(device_index, DEFAULT_SW_ID, feature_id, RESPONSE_TIMEOUT)
}

/// The query a battery read makes on `device_index` when it asks for
/// `feature`, with this software's ID.
pub fn session_query_request(device_index: u8, feature: BatteryFeature) -> (r: RequestExchange)
    ensures
        r.device_index == device_index,
        r.feature_index == (match feature {
            BatteryFeature::Unified(index) => index,
            BatteryFeature::Legacy(index) => index,
        }),
        r.function_byte == spec_function_byte(
            match feature {
                BatteryFeature::Unified(_) => 1u8,
                BatteryFeature::Legacy(_) => 0u8,
            },
            DEFAULT_SW_ID,
        ),
        r.payload == [0u8, 0u8, 0u8],
        r.timeout == RESPONSE_TIMEOUT,
        r.phase == ExchangePhase::Ready,
{
    battery_query_request(device_index, DEFAULT_SW_ID, feature)
}

/// What a battery read asks of the device next, or how it ended.
#[derive(Debug, PartialEq, Eq)]
pub enum ReadAction<E> {
    /// Query the battery through this feature.
    Query(BatteryFeature),
    /// Look up the index of this feature.
    Discover(u16),
    Done(Result<Option<BatteryStatus>, HidppError<E>>),
}

#[derive(Debug, Clone, Copy, PartialEq, Eq, Structural)]
pub enum ReadPhase {
    Ready,
    /// Waiting for the query of the feature found at discovery.
    Selected(BatteryFeature),
    /// Waiting for the BATTERY_STATUS lookup, holding the UNIFIED_BATTERY
    /// decoding error if there was one.
    LegacyLookup(Option<ProtocolError>),
    /// Waiting for the BATTERY_STATUS query.
    LegacyQuery(Option<ProtocolError>),
    Done,
}

/// A battery read in progress.
pub struct BatteryRead {
    pub phase: ReadPhase,
}

/// What the BATTERY_STATUS fallback ends with: its own outcome, except that
/// a UNIFIED_BATTERY decoding error stands when the fallback yields nothing
/// or fails to decode as well.
pub open spec fn spec_resolve_fallback<E>(unified_error: Option<ProtocolError>, legacy: Result<Option<BatteryStatus>, HidppError<E>>) -> Result<Option<BatteryStatus>, HidppError<E>> {
    match unified_error {
        None => legacy,
        Some(error) => match legacy {
            Ok(Some(status)) => Ok(Some(status)),
            Ok(None) => Err(HidppError::Protocol(error)),
            Err(HidppError::Protocol(_)) => Err(HidppError::Protocol(error)),
            Err(other) => Err(other),
        },
    }
}

/// Phase and action after the device answered a query with `result`.
pub open spec fn spec_after_query<E>(phase: ReadPhase, result: Result<Option<BatteryStatus>, HidppError<E>>) -> (ReadPhase, ReadAction<E>) {
    match phase {
        ReadPhase::Selected(BatteryFeature::Unified(_)) => match result {
            Ok(Some(status)) => (ReadPhase::Done, ReadAction::Done(Ok(Some(status)))),
            Ok(None) => (ReadPhase::LegacyLookup(None), ReadAction::Discover(FEATURE_BATTERY_STATUS)),
            Err(HidppError::Protocol(error)) => (
                ReadPhase::LegacyLookup(Some(error)),
                ReadAction::Discover(FEATURE_BATTERY_STATUS),
            ),
            Err(error) => (ReadPhase::Done, ReadAction::Done(Err(error))),
        },
        ReadPhase::LegacyQuery(unified_error) => (
            ReadPhase::Done,
            ReadAction::Done(spec_resolve_fallback(unified_error, result)),
        ),
        _ => (ReadPhase::Done, ReadAction::Done(result)),
    }
}

/// Phase and action after the BATTERY_STATUS lookup answered `result`.
pub open spec fn spec_after_discover<E>(phase: ReadPhase, result: Result<Option<u8>, HidppError<E>>) -> (ReadPhase, ReadAction<E>) {
    let unified_error = match phase {
        ReadPhase::LegacyLookup(unified_error) => unified_error,
        _ => None,
    };
    match result {
        Ok(Some(index)) => (
            ReadPhase::LegacyQuery(unified_error),
            ReadAction::Query(BatteryFeature::Legacy(index)),
        ),
        Ok(None) => (ReadPhase::Done, ReadAction::Done(spec_resolve_fallback(unified_error, Ok(None)))),
        Err(error) => (ReadPhase::Done, ReadAction::Done(spec_resolve_fallback(unified_error, Err(error)))),
    }
}

/// How many more device operations a read can ask for from `phase`.
pub open spec fn spec_operations_left(phase: ReadPhase) -> nat {
    match phase {
        ReadPhase::Ready => 4,
        ReadPhase::Selected(BatteryFeature::Unified(_)) => 3,
        ReadPhase::Selected(BatteryFeature::Legacy(_)) => 1,
        ReadPhase::LegacyLookup(_) => 2,
        ReadPhase::LegacyQuery(_) => 1,
        ReadPhase::Done => 0,
    }
}

impl BatteryRead {
    pub fn new() -> (r: Self)
        ensures
            r.phase == ReadPhase::Ready,
    {
        BatteryRead { phase: ReadPhase::Ready }
    }

    /// The first step: query the feature that discovery selected.
    pub fn start<E>(&mut self, selected: BatteryFeature) -> (action: ReadAction<E>)
        requires
            old(self).phase == ReadPhase::Ready,
        ensures
            final(self).phase == ReadPhase::Selected(selected),
            action == ReadAction::<E>::Query(selected),
    {
        self.phase = ReadPhase::Selected(selected);
        ReadAction::Query(selected)
    }

    /// The device answered the pending query with `result`.
    pub fn on_query<E>(&mut self, result: Result<Option<BatteryStatus>, HidppError<E>>) -> (action: ReadAction<E>)
        requires
            old(self).phase is Selected || old(self).phase is LegacyQuery,
        ensures
            (final(self).phase, action) == spec_after_query(old(self).phase, result),
    {
        match self.phase {
            ReadPhase::Selected(BatteryFeature::Unified(_)) => match result {
                Ok(Some(status)) => {
                    self.phase = ReadPhase::Done;
                    ReadAction::Done(Ok(Some(status)))
                },
                Ok(None) => {
                    self.phase = ReadPhase::LegacyLookup(None);
                    ReadAction::Discover(FEATURE_BATTERY_STATUS)
                },
                Err(HidppError::Protocol(error)) => {
                    self.phase = ReadPhase::LegacyLookup(Some(error));
                    ReadAction::Discover(FEATURE_BATTERY_STATUS)
                },
                Err(error) => {
                    self.phase = ReadPhase::Done;
                    ReadAction::Done(Err(error))
                },
            },
            ReadPhase::LegacyQuery(unified_error) => {
                self.phase = ReadPhase::Done;
                ReadAction::Done(resolve_fallback(unified_error, result))
            },
            _ => {
                self.phase = ReadPhase::Done;
                ReadAction::Done(result)
            },
        }
    }

    /// The BATTERY_STATUS lookup answered `result`.
    pub fn on_discover<E>(&mut self, result: Result<Option<u8>, HidppError<E>>) -> (action: ReadAction<E>)
        requires
            old(self).phase is LegacyLookup,
        ensures
            (final(self).phase, action) == spec_after_discover(old(self).phase, result),
    {
        let unified_error = match self.phase {
            ReadPhase::LegacyLookup(unified_error) => unified_error,
            _ => None,
        };
        match result {
            Ok(Some(index)) => {
                self.phase = ReadPhase::LegacyQuery(unified_error);
                ReadAction::Query(BatteryFeature::Legacy(index))
            },
            Ok(None) => {
                self.phase = ReadPhase::Done;
                ReadAction::Done(resolve_fallback(unified_error, Ok(None)))
            },
            Err(error) => {
                self.phase = ReadPhase::Done;
                ReadAction::Done(resolve_fallback(unified_error, Err(error)))
            },
        }
    }
}


/// A read reports a battery status only when a query returned that status;
/// a lookup never produces one.
pub proof fn lemma_status_comes_from_a_query<E>(
    phase: ReadPhase,
    query: Result<Option<BatteryStatus>, HidppError<E>>,
    lookup: Result<Option<u8>, HidppError<E>>,
    status: BatteryStatus,
)
    ensures
        spec_after_query(phase, query).1 == ReadAction::<E>::Done(Ok(Some(status))) ==> query == Ok::<Option<BatteryStatus>, HidppError<E>>(Some(status)),
        spec_after_discover(phase, lookup).1 != ReadAction::<E>::Done(Ok(Some(status))),
{
}

/// A HID failure or a partial write while reading UNIFIED_BATTERY ends the
/// read with that failure, without trying BATTERY_STATUS.
pub proof fn lemma_transport_failure_stops_the_read<E>(index: u8, error: HidppError<E>)
    requires
        !(error is Protocol),
    ensures
        spec_after_query(ReadPhase::Selected(BatteryFeature::Unified(index)), Err(error))
            == (ReadPhase::Done, ReadAction::<E>::Done(Err(error))),
{
}

/// A feature that discovery found as BATTERY_STATUS is queried once, without
/// a new lookup, and its answer is the answer of the read.
pub proof fn lemma_selected_legacy_is_queried_once<E>(index: u8, query: Result<Option<BatteryStatus>, HidppError<E>>)
    ensures
        spec_after_query(ReadPhase::Selected(BatteryFeature::Legacy(index)), query) == (ReadPhase::Done, ReadAction::Done(query)),
{
}

/// When UNIFIED_BATTERY gives no status, BATTERY_STATUS is looked up and,
/// if found, queried; its answer is the read's answer.
pub proof fn lemma_missing_unified_status_falls_back<E>(
    index: u8,
    lookup: Result<Option<u8>, HidppError<E>>,
    legacy: Result<Option<BatteryStatus>, HidppError<E>>,
)
    ensures
        ({
            let (after_unified, first) = spec_after_query(ReadPhase::Selected(BatteryFeature::Unified(index)), Ok::<Option<BatteryStatus>, HidppError<E>>(None));
            let (after_lookup, second) = spec_after_discover(after_unified, lookup);
            &&& first == ReadAction::<E>::Discover(FEATURE_BATTERY_STATUS)
            &&& match lookup {
                Ok(Some(legacy_index)) => second == ReadAction::<E>::Query(BatteryFeature::Legacy(legacy_index))
                    && spec_after_query(after_lookup, legacy) == (ReadPhase::Done, ReadAction::Done(legacy)),
                Ok(None) => second == ReadAction::<E>::Done(Ok(None)),
                Err(error) => second == ReadAction::<E>::Done(Err(error)),
            }
        }),
{
}

/// An undecodable UNIFIED_BATTERY reply leads to the BATTERY_STATUS
/// fallback, and its error stands unless the fallback yields a status or
/// fails in transport.
pub proof fn lemma_unified_decoding_error_stands<E>(
    index: u8,
    error: ProtocolError,
    lookup: Result<Option<u8>, HidppError<E>>,
    legacy: Result<Option<BatteryStatus>, HidppError<E>>,
)
    ensures
        ({
            let (after_unified, first) = spec_after_query(ReadPhase::Selected(BatteryFeature::Unified(index)), Err::<Option<BatteryStatus>, HidppError<E>>(HidppError::Protocol(error)));
            let (after_lookup, second) = spec_after_discover(after_unified, lookup);
            let kept = ReadAction::<E>::Done(Err(HidppError::Protocol(error)));
            &&& first == ReadAction::<E>::Discover(FEATURE_BATTERY_STATUS)
            &&& match lookup {
                Ok(Some(legacy_index)) => {
                    &&& second == ReadAction::<E>::Query(BatteryFeature::Legacy(legacy_index))
                    &&& match legacy {
                        Ok(Some(status)) => spec_after_query(after_lookup, legacy).1 == ReadAction::<E>::Done(Ok(Some(status))),
                        Ok(None) => spec_after_query(after_lookup, legacy).1 == kept,
                        Err(HidppError::Protocol(_)) => spec_after_query(after_lookup, legacy).1 == kept,
                        Err(failure) => spec_after_query(after_lookup, legacy).1 == ReadAction::<E>::Done(Err(failure)),
                    }
                },
                Ok(None) => second == kept,
                Err(HidppError::Protocol(_)) => second == kept,
                Err(failure) => second == ReadAction::<E>::Done(Err(failure)),
            }
        }),
{
}

/// A read asks the device for at most three operations after its first
/// query is chosen: every answer leaves fewer operations to ask for, and
/// the read is over once none are left.
pub proof fn lemma_each_answer_brings_the_read_closer_to_its_end<E>(
    phase: ReadPhase,
    query: Result<Option<BatteryStatus>, HidppError<E>>,
    lookup: Result<Option<u8>, HidppError<E>>,
)
    ensures
        spec_operations_left(ReadPhase::Selected(BatteryFeature::Unified(0))) == 3,
        phase is Selected || phase is LegacyQuery ==> spec_operations_left(spec_after_query(phase, query).0) < spec_operations_left(phase),
        phase is LegacyLookup ==> spec_operations_left(spec_after_discover(phase, lookup).0) < spec_operations_left(phase),
        spec_after_query(phase, query).0 == ReadPhase::Done <==> spec_after_query(phase, query).1 is Done,
        spec_after_discover(phase, lookup).0 == ReadPhase::Done <==> spec_after_discover(phase, lookup).1 is Done,
{
}

/// A reported status was decoded, by the queried feature's own layout, from
/// a reply to that query: the read ends with `Ok(Some(status))` after the
/// answer to a query through `feature` only when that query's exchange
/// ended with a reply that the feature's decoder reads as `status`.
pub proof fn lemma_reported_status_was_decoded<E>(
    phase: ReadPhase,
    feature: BatteryFeature,
    outcome: Result<ReplyView, HidppError<E>>,
    status: BatteryStatus,
)
    ensures
        spec_after_query(phase, spec_query_result(feature, outcome)).1 == ReadAction::<E>::Done(Ok(Some(status)))
            ==> (outcome matches Ok(ReplyView::Response(report)) && match feature {
                BatteryFeature::Unified(_) => spec_parse_unified_battery(report) == Ok::<BatteryStatus, ProtocolError>(status),
                BatteryFeature::Legacy(_) => spec_parse_battery_status(report) == Ok::<BatteryStatus, ProtocolError>(status),
            }),
{
}

/// A failure of a lookup or query exchange, or an undecodable lookup reply,
/// reaches the battery read unchanged.
pub proof fn lemma_exchange_failures_pass_through<E>(feature: BatteryFeature, error: HidppError<E>)
    ensures
        spec_lookup_result::<E>(Err(error)) == Err::<FeatureLookup, HidppError<E>>(error),
        spec_query_result::<E>(feature, Err(error)) == Err::<Option<BatteryStatus>, HidppError<E>>(error),
{
}

/// A battery query reads the reply by its feature's layout, over the bytes
/// of the reply: UNIFIED_BATTERY gives the level in byte four and the
/// charging flag in bit 0 of byte seven, BATTERY_STATUS the level in byte
/// four and the flag in bit 0 of byte six; a reply too short for its layout
/// is a protocol error naming the length it needed; an error report, an
/// offline receiver or silence give no status; a failed exchange passes
/// its failure on.
pub proof fn lemma_query_reads_the_reply_bytes<E>(index: u8, outcome: Result<ReplyView, HidppError<E>>)
    ensures
        outcome matches Ok(ReplyView::Response(report)) ==> {
            &&& report.len() >= 8 ==> spec_query_result(BatteryFeature::Unified(index), outcome)
                == Ok::<Option<BatteryStatus>, HidppError<E>>(Some(BatteryStatus { level: report[4], charging: report[7] % 2 == 1 }))
            &&& report.len() < 8 ==> spec_query_result(BatteryFeature::Unified(index), outcome)
                == Err::<Option<BatteryStatus>, HidppError<E>>(HidppError::Protocol(ProtocolError::ShortResponse { minimum: 8, actual: report.len() as usize }))
            &&& report.len() >= 7 ==> spec_query_result(BatteryFeature::Legacy(index), outcome)
                == Ok::<Option<BatteryStatus>, HidppError<E>>(Some(BatteryStatus { level: report[4], charging: report[6] % 2 == 1 }))
            &&& report.len() < 7 ==> spec_query_result(BatteryFeature::Legacy(index), outcome)
                == Err::<Option<BatteryStatus>, HidppError<E>>(HidppError::Protocol(ProtocolError::ShortResponse { minimum: 7, actual: report.len() as usize }))
        },
        outcome is Ok && !(outcome->Ok_0 is Response) ==> {
            &&& spec_query_result(BatteryFeature::Unified(index), outcome) == Ok::<Option<BatteryStatus>, HidppError<E>>(None)
            &&& spec_query_result(BatteryFeature::Legacy(index), outcome) == Ok::<Option<BatteryStatus>, HidppError<E>>(None)
        },
        outcome matches Err(error) ==> {
            &&& spec_query_result(BatteryFeature::Unified(index), outcome) == Err::<Option<BatteryStatus>, HidppError<E>>(error)
            &&& spec_query_result(BatteryFeature::Legacy(index), outcome) == Err::<Option<BatteryStatus>, HidppError<E>>(error)
        },
{
    if let Ok(ReplyView::Response(report)) = outcome {
        lemma_unified_battery_layout(report);
        lemma_battery_status_layout(report);
    }
}

/// Every status that the feature's decoder reads from a reply is what the
/// query answers, whatever its level or flag: a decoded reply is never
/// dropped.
pub proof fn lemma_decoded_status_is_answered<E>(feature: BatteryFeature, report: Seq<u8>, status: BatteryStatus)
    requires
        match feature {
            BatteryFeature::Unified(_) => spec_parse_unified_battery(report) == Ok::<BatteryStatus, ProtocolError>(status),
            BatteryFeature::Legacy(_) => spec_parse_battery_status(report) == Ok::<BatteryStatus, ProtocolError>(status),
        },
    ensures
        spec_query_result(feature, Ok::<ReplyView, HidppError<E>>(ReplyView::Response(report)))
            == Ok::<Option<BatteryStatus>, HidppError<E>>(Some(status)),
{
}

/// A UNIFIED_BATTERY reply of at least eight bytes to the first query ends
/// the read at once with the level in byte four and the charging flag in
/// bit 0 of byte seven, whatever the level.
pub proof fn lemma_full_unified_reply_ends_the_read<E>(index: u8, report: Seq<u8>)
    requires
        report.len() >= 8,
    ensures
        spec_after_query(
            ReadPhase::Selected(BatteryFeature::Unified(index)),
            spec_query_result(BatteryFeature::Unified(index), Ok::<ReplyView, HidppError<E>>(ReplyView::Response(report))),
        ) == (ReadPhase::Done, ReadAction::<E>::Done(Ok(Some(BatteryStatus { level: report[4], charging: report[7] % 2 == 1 })))),
{
    lemma_unified_battery_layout(report);
}

/// A lookup reads the root feature's reply over its bytes: a nonzero byte
/// four is the feature's index, a zero there means the feature is missing,
/// and so does an error report; a reply under five bytes is a protocol
/// error; an offline receiver and silence are told apart; a failed exchange
/// passes its failure on.
pub proof fn lemma_lookup_reads_the_reply_bytes<E>(outcome: Result<ReplyView, HidppError<E>>)
    ensures
        outcome matches Ok(ReplyView::Response(report)) ==> {
            &&& report.len() >= 5 && report[4] != 0 ==> spec_lookup_result(outcome) == Ok::<FeatureLookup, HidppError<E>>(FeatureLookup::Index(report[4]))
            &&& report.len() >= 5 && report[4] == 0 ==> spec_lookup_result(outcome) == Ok::<FeatureLookup, HidppError<E>>(FeatureLookup::Unsupported)
            &&& report.len() < 5 ==> spec_lookup_result(outcome)
                == Err::<FeatureLookup, HidppError<E>>(HidppError::Protocol(ProtocolError::ShortResponse { minimum: 5, actual: report.len() as usize }))
        },
        outcome == Ok::<ReplyView, HidppError<E>>(ReplyView::DeviceError) ==> spec_lookup_result(outcome) == Ok::<FeatureLookup, HidppError<E>>(FeatureLookup::Unsupported),
        outcome == Ok::<ReplyView, HidppError<E>>(ReplyView::Offline) ==> spec_lookup_result(outcome) == Ok::<FeatureLookup, HidppError<E>>(FeatureLookup::Offline),
        outcome == Ok::<ReplyView, HidppError<E>>(ReplyView::Silence) ==> spec_lookup_result(outcome) == Ok::<FeatureLookup, HidppError<E>>(FeatureLookup::Silent),
        outcome matches Err(error) ==> spec_lookup_result(outcome) == Err::<FeatureLookup, HidppError<E>>(error),
{
    if let Ok(ReplyView::Response(report)) = outcome {
        lemma_feature_index_layout(report);
    }
}

/// A lookup names an index exactly when the root feature named one, and
/// that index is never zero, the root feature's own: the index found is
/// `Some(i)` exactly for `Index(i)`, and a missing feature, an offline
/// receiver or silence give none.
pub proof fn lemma_found_index_is_named_and_nonzero<E>(lookup: FeatureLookup, index: u8, outcome: Result<ReplyView, HidppError<E>>)
    ensures
        spec_discovered_index(lookup) == Some(index) <==> lookup == FeatureLookup::Index(index),
        spec_discovered_index(FeatureLookup::Unsupported) == None::<u8>,
        spec_discovered_index(FeatureLookup::Offline) == None::<u8>,
        spec_discovered_index(FeatureLookup::Silent) == None::<u8>,
        spec_lookup_result(outcome) == Ok::<FeatureLookup, HidppError<E>>(lookup) && spec_discovered_index(lookup) == Some(index)
            ==> (index != 0 && (outcome matches Ok(ReplyView::Response(report)) && report.len() >= 5 && report[4] == index)),
{
    if let Ok(ReplyView::Response(report)) = outcome {
        lemma_feature_index_layout(report);
    }
}

fn resolve_fallback<E>(unified_error: Option<ProtocolError>, legacy: Result<Option<BatteryStatus>, HidppError<E>>) -> (r: Result<Option<BatteryStatus>, HidppError<E>>)
    ensures
        r == spec_resolve_fallback(unified_error, legacy),
{
    match unified_error {
        None => legacy,
        Some(error) => match legacy {
            Ok(Some(status)) => Ok(Some(status)),
            Ok(None) => Err(HidppError::Protocol(error)),
            Err(HidppError::Protocol(_)) => Err(HidppError::Protocol(error)),
            Err(other) => Err(other),
        },
    }
}

} // verus!
