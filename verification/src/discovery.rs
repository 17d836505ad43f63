//! Finding the mouse: which battery feature one device index offers, the
//! order in which interfaces and device indices are probed within the
//! discovery budget, and how the interfaces opened for probing are kept.

use vstd::prelude::*;

use crate::battery::{feature_lookup_request, BatteryFeature, FeatureLookup};
use crate::exchange::{request_timeout, spec_request_timeout, ExchangePhase, RequestExchange};
use crate::hidpp::{
    spec_function_byte, HidppError, DEFAULT_SW_ID, FEATURE_BATTERY_STATUS, FEATURE_ROOT,
    FEATURE_UNIFIED_BATTERY,
};

verus! {

/// How many device indices are probed on each interface.
pub const DEVICE_INDEX_CANDIDATE_COUNT: usize = 7;

/// Receiver-paired devices answer on 1..=6 and a directly connected device
/// on 0xFF, so both common slots come before the rarely used ones.
pub open spec fn spec_device_index_candidate(position: int) -> u8 {
    seq![1u8, 0xFFu8, 2u8, 3u8, 4u8, 5u8, 6u8][position]
}

/// The device index probed at `position` in the candidate order.
pub fn device_index_candidate(position: usize) -> (r: u8)
    requires
        position < DEVICE_INDEX_CANDIDATE_COUNT,
    ensures
        r == spec_device_index_candidate(position as int),
{
    match position {
        0 => 1,
        1 => 0xFF,
        2 => 2,
        3 => 3,
        4 => 4,
        5 => 5,
        _ => 6,
    }
}

/// What probing one device index on one interface found.
#[derive(Debug, PartialEq, Eq)]
pub enum ProbeOutcome<D> {
    Found(D),
    Offline,
    Absent,
}

/// What probing every interface and device index found.
#[derive(Debug, PartialEq, Eq)]
pub enum Discovery<D> {
    Found(D),
    /// A receiver answered, but reported no connected mouse.
    Offline,
    NotFound,
}

/// What the probe of one device index asks of the device next, or what it
/// found.
#[derive(Debug)]
pub enum FeatureProbeAction<E> {
    /// Run this root-feature lookup.
    Lookup(RequestExchange),
    Done(Result<ProbeOutcome<BatteryFeature>, HidppError<E>>),
}

#[derive(Debug, Clone, Copy, PartialEq, Eq, Structural)]
pub enum FeatureProbePhase {
    Ready,
    UnifiedLookup,
    LegacyLookup,
    Done,
}

/// The probe of one device index for a battery feature, bounded by the
/// discovery deadline.
pub struct FeatureProbe {
    pub device_index: u8,
    pub deadline: u64,
    pub phase: FeatureProbePhase,
}

/// The lookup of `feature_id` on `device_index` that waits what is left of
/// the discovery budget at `now`, at most one response timeout.
pub open spec fn spec_lookup(device_index: u8, feature_id: u16, now: u64, deadline: u64) -> RequestExchange {
    RequestExchange {
        device_index,
        feature_index: FEATURE_ROOT as u8,
        function_byte: spec_function_byte(0, DEFAULT_SW_ID),
        payload: [(feature_id / 256) as u8, (feature_id % 256) as u8, 0u8],
        timeout: spec_request_timeout(now, deadline),
        phase: ExchangePhase::Ready,
    }
}

pub open spec fn spec_probe_action_is<E>(action: FeatureProbeAction<E>, expected: FeatureProbeAction<E>) -> bool {
    match (action, expected) {
        (FeatureProbeAction::Lookup(a), FeatureProbeAction::Lookup(b)) => {
            &&& a.device_index == b.device_index
            &&& a.feature_index == b.feature_index
            &&& a.function_byte == b.function_byte
            &&& a.payload == b.payload
            &&& a.timeout == b.timeout
            &&& a.phase == b.phase
        },
        (FeatureProbeAction::Done(a), FeatureProbeAction::Done(b)) => a == b,
        _ => false,
    }
}

/// The phase and action after a lookup ended with `result` at `now`. A
/// failed lookup ends the probe with its error. UNIFIED_BATTERY is
/// preferred. Every HID++ 2.0 device answers root feature lookups, so
/// silence means the index is absent and the BATTERY_STATUS lookup would
/// only wait again.
pub open spec fn spec_after_lookup<E>(probe: FeatureProbe, result: Result<FeatureLookup, HidppError<E>>, now: u64) -> (FeatureProbePhase, FeatureProbeAction<E>) {
    match result {
        Err(error) => (FeatureProbePhase::Done, FeatureProbeAction::Done(Err(error))),
        Ok(lookup) => match probe.phase {
            FeatureProbePhase::UnifiedLookup => match lookup {
                FeatureLookup::Index(index) => (
                    FeatureProbePhase::Done,
                    FeatureProbeAction::Done(Ok(ProbeOutcome::Found(BatteryFeature::Unified(index)))),
                ),
                FeatureLookup::Offline => (FeatureProbePhase::Done, FeatureProbeAction::Done(Ok(ProbeOutcome::Offline))),
                FeatureLookup::Silent => (FeatureProbePhase::Done, FeatureProbeAction::Done(Ok(ProbeOutcome::Absent))),
                FeatureLookup::Unsupported => (
                    FeatureProbePhase::LegacyLookup,
                    FeatureProbeAction::Lookup(spec_lookup(probe.device_index, FEATURE_BATTERY_STATUS, now, probe.deadline)),
                ),
            },
            _ => match lookup {
                FeatureLookup::Index(index) => (
                    FeatureProbePhase::Done,
                    FeatureProbeAction::Done(Ok(ProbeOutcome::Found(BatteryFeature::Legacy(index)))),
                ),
                FeatureLookup::Offline => (FeatureProbePhase::Done, FeatureProbeAction::Done(Ok(ProbeOutcome::Offline))),
                _ => (FeatureProbePhase::Done, FeatureProbeAction::Done(Ok(ProbeOutcome::Absent))),
            },
        },
    }
}

impl FeatureProbe {
    pub fn new(device_index: u8, deadline: u64) -> (r: Self)
        ensures
            r.device_index == device_index,
            r.deadline == deadline,
            r.phase == FeatureProbePhase::Ready,
    {
        FeatureProbe { device_index, deadline, phase: FeatureProbePhase::Ready }
    }

    /// The first step at `now`: look up UNIFIED_BATTERY.
    pub fn start<E>(&mut self, now: u64) -> (action: FeatureProbeAction<E>)
        requires
            old(self).phase == FeatureProbePhase::Ready,
        ensures
            final(self).device_index == old(self).device_index,
            final(self).deadline == old(self).deadline,
            final(self).phase == FeatureProbePhase::UnifiedLookup,
            spec_probe_action_is(
                action,
                FeatureProbeAction::<E>::Lookup(spec_lookup(old(self).device_index, FEATURE_UNIFIED_BATTERY, now, old(self).deadline)),
            ),
    {
        self.phase = FeatureProbePhase::UnifiedLookup;
        let timeout = request_timeout(now, self.deadline);
        FeatureProbeAction::Lookup(feature_lookup_request(self.device_index, DEFAULT_SW_ID, FEATURE_UNIFIED_BATTERY, timeout))
    }

    /// The pending lookup ended with `result`, and `now` is the time after
    /// it.
    pub fn on_lookup<E>(&mut self, result: Result<FeatureLookup, HidppError<E>>, now: u64) -> (action: FeatureProbeAction<E>)
        requires
            old(self).phase == FeatureProbePhase::UnifiedLookup || old(self).phase == FeatureProbePhase::LegacyLookup,
        ensures
            final(self).device_index == old(self).device_index,
            final(self).deadline == old(self).deadline,
            final(self).phase == spec_after_lookup(*old(self), result, now).0,
            spec_probe_action_is(action, spec_after_lookup(*old(self), result, now).1),
    {
        let lookup = match result {
            Ok(lookup) => lookup,
            Err(error) => {
                self.phase = FeatureProbePhase::Done;
                return FeatureProbeAction::Done(Err(error));
            },
        };
        let unified = match self.phase {
            FeatureProbePhase::UnifiedLookup => true,
            _ => false,
        };
        if unified {
            match lookup {
                FeatureLookup::Index(index) => {
                    self.phase = FeatureProbePhase::Done;
                    FeatureProbeAction::Done(Ok(ProbeOutcome::Found(BatteryFeature::Unified(index))))
                },
                FeatureLookup::Offline => {
                    self.phase = FeatureProbePhase::Done;
                    FeatureProbeAction::Done(Ok(ProbeOutcome::Offline))
                },
                FeatureLookup::Silent => {
                    self.phase = FeatureProbePhase::Done;
                    FeatureProbeAction::Done(Ok(ProbeOutcome::Absent))
                },
                FeatureLookup::Unsupported => {
                    self.phase = FeatureProbePhase::LegacyLookup;
                    let timeout = request_timeout(now, self.deadline);
                    FeatureProbeAction::Lookup(feature_lookup_request(self.device_index, DEFAULT_SW_ID, FEATURE_BATTERY_STATUS, timeout))
                },
            }
        } else {
            self.phase = FeatureProbePhase::Done;
            match lookup {
                FeatureLookup::Index(index) => FeatureProbeAction::Done(Ok(ProbeOutcome::Found(BatteryFeature::Legacy(index)))),
                FeatureLookup::Offline => FeatureProbeAction::Done(Ok(ProbeOutcome::Offline)),
                _ => FeatureProbeAction::Done(Ok(ProbeOutcome::Absent)),
            }
        }
    }
}

/// What discovery asks next, or what it found.
#[derive(Debug, PartialEq, Eq)]
pub enum DiscoverAction<D, E> {
    /// Probe this device index on the interface at this position.
    Probe { interface: usize, device_index: u8 },
    Done(Result<Discovery<D>, E>),
}

/// Probing every interface for every candidate device index, index-major:
/// the likely indices on every interface come before the unlikely ones on
/// the first interface.
pub struct Discover<E> {
    pub interface_count: usize,
    pub deadline: u64,
    /// Position in the candidate device indices of the next probe.
    pub candidate: usize,
    /// Interface of the next probe.
    pub interface: usize,
    /// Whether a receiver reported the mouse offline.
    pub offline: bool,
    /// The last probe error.
    pub last_error: Option<E>,
    pub finished: bool,
}

/// The outcome when probing ends without a find. The receiver's own report
/// explains the failure better than an error from another interface.
pub open spec fn spec_finish<D, E>(offline: bool, last_error: Option<E>) -> Result<Discovery<D>, E> {
    if offline {
        Ok(Discovery::Offline)
    } else {
        match last_error {
            Some(error) => Err(error),
            None => Ok(Discovery::NotFound),
        }
    }
}

/// The probe position after `(candidate, interface)`.
pub open spec fn spec_next_position(candidate: usize, interface: usize, interface_count: usize) -> (usize, usize) {
    if interface + 1 < interface_count {
        (candidate, (interface + 1) as usize)
    } else {
        ((candidate + 1) as usize, 0usize)
    }
}

/// The state after a probe that found nothing ended with `result`: the
/// next position, with an offline report or the error remembered.
pub open spec fn spec_after_probe<D, E>(d: Discover<E>, result: Result<ProbeOutcome<D>, E>) -> Discover<E> {
    Discover::<E> {
        interface_count: d.interface_count,
        deadline: d.deadline,
        candidate: spec_next_position(d.candidate, d.interface, d.interface_count).0,
        interface: spec_next_position(d.candidate, d.interface, d.interface_count).1,
        offline: d.offline || result == Ok::<ProbeOutcome<D>, E>(ProbeOutcome::Offline),
        last_error: match result {
            Err(error) => Some(error),
            _ => d.last_error,
        },
        finished: false,
    }
}

/// Probes that discovery may still ask for.
pub open spec fn spec_probes_left<E>(d: Discover<E>) -> int {
    if d.finished {
        0
    } else {
        (DEVICE_INDEX_CANDIDATE_COUNT - d.candidate) * d.interface_count - d.interface
    }
}

impl<E> Discover<E> {
    /// The position is one that can be probed.
    pub open spec fn at_probe(&self) -> bool {
        self.candidate < DEVICE_INDEX_CANDIDATE_COUNT && self.interface < self.interface_count
    }

    /// The action discovery takes at its current position at `now`: probe
    /// there, unless the candidates are used up or the budget is spent.
    pub open spec fn spec_action_here<D>(&self, now: u64) -> DiscoverAction<D, E> {
        if self.at_probe() && now < self.deadline {
            DiscoverAction::Probe {
                interface: self.interface,
                device_index: spec_device_index_candidate(self.candidate as int),
            }
        } else {
            DiscoverAction::Done(spec_finish(self.offline, self.last_error))
        }
    }

    pub fn new(interface_count: usize, deadline: u64) -> (r: Self)
        ensures
            r.interface_count == interface_count,
            r.deadline == deadline,
            r.candidate == 0,
            r.interface == 0,
            !r.offline,
            r.last_error is None,
            !r.finished,
    {
        Discover {
            interface_count,
            deadline,
            candidate: 0,
            interface: 0,
            offline: false,
            last_error: None,
            finished: false,
        }
    }

    /// The first step at `now`.
    pub fn start<D>(&mut self, now: u64) -> (action: DiscoverAction<D, E>)
        requires
            !old(self).finished,
            old(self).candidate == 0,
            old(self).interface == 0,
            !old(self).offline,
            old(self).last_error is None,
        ensures
            action == old(self).spec_action_here::<D>(now),
            final(self).finished == !(action is Probe),
            final(self).interface_count == old(self).interface_count,
            final(self).deadline == old(self).deadline,
            final(self).candidate == old(self).candidate,
            final(self).interface == old(self).interface,
            final(self).offline == old(self).offline,
            !final(self).finished ==> final(self).last_error == old(self).last_error,
    {
        self.act_here(now)
    }

    fn act_here<D>(&mut self, now: u64) -> (action: DiscoverAction<D, E>)
        requires
            !old(self).finished,
        ensures
            action == old(self).spec_action_here::<D>(now),
            final(self).finished == !(action is Probe),
            final(self).interface_count == old(self).interface_count,
            final(self).deadline == old(self).deadline,
            final(self).candidate == old(self).candidate,
            final(self).interface == old(self).interface,
            final(self).offline == old(self).offline,
            !final(self).finished ==> final(self).last_error == old(self).last_error,
    {
        if self.candidate < DEVICE_INDEX_CANDIDATE_COUNT && self.interface < self.interface_count
            && now < self.deadline {
            DiscoverAction::Probe {
                interface: self.interface,
                device_index: device_index_candidate(self.candidate),
            }
        } else {
            self.finished = true;
            let last_error = self.last_error.take();
            if self.offline {
                DiscoverAction::Done(Ok(Discovery::Offline))
            } else {
                match last_error {
                    Some(error) => DiscoverAction::Done(Err(error)),
                    None => DiscoverAction::Done(Ok(Discovery::NotFound)),
                }
            }
        }
    }

    /// The pending probe ended with `result`, and `now` is the time after
    /// it. A find ends discovery at once; otherwise an offline report or
    /// error is remembered and discovery moves to the next position.
    pub fn on_probe<D>(&mut self, result: Result<ProbeOutcome<D>, E>, now: u64) -> (action: DiscoverAction<D, E>)
        requires
            !old(self).finished,
            old(self).at_probe(),
        ensures
            final(self).interface_count == old(self).interface_count,
            final(self).deadline == old(self).deadline,
            match result {
                Ok(ProbeOutcome::Found(found)) => action == DiscoverAction::<D, E>::Done(Ok(Discovery::Found(found))) && final(self).finished,
                _ => {
                    let moved = spec_after_probe(*old(self), result);
                    &&& action == moved.spec_action_here::<D>(now)
                    &&& final(self).finished == !(action is Probe)
                    &&& final(self).candidate == moved.candidate
                    &&& final(self).interface == moved.interface
                    &&& final(self).offline == moved.offline
                    &&& !final(self).finished ==> final(self).last_error == moved.last_error
                },
            },
    {
        match result {
            Ok(ProbeOutcome::Found(found)) => {
                self.finished = true;
                return DiscoverAction::Done(Ok(Discovery::Found(found)));
            },
            Ok(ProbeOutcome::Offline) => {
                self.offline = true;
            },
            Ok(ProbeOutcome::Absent) => {},
            Err(error) => {
                self.last_error = Some(error);
            },
        }
        if self.interface + 1 < self.interface_count {
            self.interface = self.interface + 1;
        } else {
            self.candidate = self.candidate + 1;
            self.interface = 0;
        }
        self.act_here(now)
    }
}


/// Where a probe position falls in the overall probe order.
pub open spec fn spec_probe_rank(candidate: usize, interface: usize, interface_count: usize) -> int {
    candidate * interface_count + interface
}

/// Probing is index-major: each probe is the next one in the order, and
/// the probe at rank `n` asks candidate `n / interface_count` on interface
/// `n % interface_count`, so every interface is asked for one device index
/// before any is asked for the next.
pub proof fn lemma_probe_order_is_index_major(candidate: usize, interface: usize, interface_count: usize)
    requires
        candidate < DEVICE_INDEX_CANDIDATE_COUNT,
        interface < interface_count,
    ensures
        ({
            let next = spec_next_position(candidate, interface, interface_count);
            spec_probe_rank(next.0, next.1, interface_count) == spec_probe_rank(candidate, interface, interface_count) + 1
        }),
        spec_probe_rank(candidate, interface, interface_count) / (interface_count as int) == candidate,
        spec_probe_rank(candidate, interface, interface_count) % (interface_count as int) == interface,
{
    let count = interface_count as int;
    let c = candidate as int;
    assert((c + 1) * count == c * count + count) by (nonlinear_arith);
    vstd::arithmetic::div_mod::lemma_fundamental_div_mod_converse_div(c * count + interface, count, c, interface as int);
    vstd::arithmetic::div_mod::lemma_fundamental_div_mod_converse_mod(c * count + interface, count, c, interface as int);
}

/// Every probe that finds nothing leaves one probe fewer to make, so
/// discovery makes at most seven probes per interface.
pub proof fn lemma_probes_are_bounded<E>(d: Discover<E>, moved: Discover<E>)
    requires
        !d.finished,
        d.at_probe(),
        !moved.finished,
        moved.interface_count == d.interface_count,
        (moved.candidate, moved.interface) == spec_next_position(d.candidate, d.interface, d.interface_count),
    ensures
        spec_probes_left(d) <= DEVICE_INDEX_CANDIDATE_COUNT * d.interface_count,
        spec_probes_left(d) > 0,
        spec_probes_left(moved) == spec_probes_left(d) - 1,
{
    let count = d.interface_count as int;
    let left = (DEVICE_INDEX_CANDIDATE_COUNT - d.candidate) as int;
    assert(left * count >= count) by (nonlinear_arith)
        requires left >= 1, count >= 0;
    assert(left * count <= 7 * count) by (nonlinear_arith)
        requires left <= 7, count >= 0;
    assert((left - 1) * count == left * count - count) by (nonlinear_arith);
}

/// A probe result that found the mouse.
pub open spec fn spec_finds<D, E>(result: Result<ProbeOutcome<D>, E>) -> bool {
    result matches Ok(ProbeOutcome::Found(_))
}

/// Whether any of the first `k` probe results was an offline report.
pub open spec fn spec_offline_seen<D, E>(results: Seq<Result<ProbeOutcome<D>, E>>, k: int) -> bool
    decreases k,
{
    if k <= 0 {
        false
    } else {
        spec_offline_seen(results, k - 1) || results[k - 1] == Ok::<ProbeOutcome<D>, E>(ProbeOutcome::Offline)
    }
}

/// The last error among the first `k` probe results.
pub open spec fn spec_last_error<D, E>(results: Seq<Result<ProbeOutcome<D>, E>>, k: int) -> Option<E>
    decreases k,
{
    if k <= 0 {
        None
    } else {
        match results[k - 1] {
            Err(error) => Some(error),
            _ => spec_last_error(results, k - 1),
        }
    }
}

/// A discovery run from `d` in which every probe starts before the deadline
/// and the probe at rank `n` ends with `results[n]`: how many probes it
/// makes and how it ends.
pub open spec fn spec_discovery_run<D, E>(d: Discover<E>, results: Seq<Result<ProbeOutcome<D>, E>>) -> (int, Result<Discovery<D>, E>)
    decreases spec_probes_left(d),
{
    if !d.finished && d.at_probe() {
        let answer = results[spec_probe_rank(d.candidate, d.interface, d.interface_count)];
        match answer {
            Ok(ProbeOutcome::Found(found)) => (1, Ok(Discovery::Found(found))),
            _ => {
                proof {
                    lemma_probes_are_bounded(d, spec_after_probe(d, answer));
                }
                let (more, outcome) = spec_discovery_run(spec_after_probe(d, answer), results);
                (1 + more, outcome)
            },
        }
    } else {
        (0, spec_finish(d.offline, d.last_error))
    }
}

/// `d` is at the probe position of rank `k`, with all positions after the
/// last one collapsed to rank `7 * interface_count`.
pub open spec fn spec_at_rank<E>(d: Discover<E>, k: int) -> bool {
    &&& !d.finished
    &&& d.candidate <= DEVICE_INDEX_CANDIDATE_COUNT
    &&& d.interface_count == 0 ==> d.candidate == 0 && d.interface == 0
    &&& d.interface_count > 0 ==> d.interface < d.interface_count && (d.candidate == DEVICE_INDEX_CANDIDATE_COUNT ==> d.interface == 0)
    &&& spec_probe_rank(d.candidate, d.interface, d.interface_count) == k
}

pub proof fn lemma_rank_bounds<E>(d: Discover<E>, k: int)
    requires
        spec_at_rank(d, k),
    ensures
        0 <= k <= DEVICE_INDEX_CANDIDATE_COUNT * d.interface_count,
        d.at_probe() <==> k < DEVICE_INDEX_CANDIDATE_COUNT * d.interface_count,
{
    let c = d.candidate as int;
    let count = d.interface_count as int;
    let i = d.interface as int;
    assert(c * count >= 0) by (nonlinear_arith)
        requires c >= 0, count >= 0;
    if count > 0 {
        if c < 7 {
            assert((c + 1) * count == c * count + count) by (nonlinear_arith);
            assert((c + 1) * count <= 7 * count) by (nonlinear_arith)
                requires c + 1 <= 7, count >= 0;
        } else {
            assert(c == 7);
        }
    } else {
        assert(c * count == 0) by (nonlinear_arith)
            requires count == 0;
    }
}

pub proof fn lemma_rank_advances<D, E>(d: Discover<E>, k: int, result: Result<ProbeOutcome<D>, E>)
    requires
        spec_at_rank(d, k),
        d.at_probe(),
    ensures
        spec_at_rank(spec_after_probe(d, result), k + 1),
{
    lemma_probe_order_is_index_major(d.candidate, d.interface, d.interface_count);
}

proof fn lemma_run_finds<D, E>(d: Discover<E>, results: Seq<Result<ProbeOutcome<D>, E>>, k: int, j: int, found: D)
    requires
        spec_at_rank(d, k),
        k <= j < DEVICE_INDEX_CANDIDATE_COUNT * d.interface_count,
        results[j] == Ok::<ProbeOutcome<D>, E>(ProbeOutcome::Found(found)),
        forall|i: int| k <= i < j ==> !spec_finds(#[trigger] results[i]),
    ensures
        spec_discovery_run(d, results) == (j + 1 - k, Ok::<Discovery<D>, E>(Discovery::Found(found))),
    decreases j - k,
{
    lemma_rank_bounds(d, k);
    if k < j {
        let answer = results[k];
        assert(!spec_finds(answer));
        lemma_rank_advances(d, k, answer);
        lemma_run_finds(spec_after_probe(d, answer), results, k + 1, j, found);
    }
}

proof fn lemma_run_exhausts<D, E>(d: Discover<E>, results: Seq<Result<ProbeOutcome<D>, E>>, k: int)
    requires
        spec_at_rank(d, k),
        d.offline == spec_offline_seen(results, k),
        d.last_error == spec_last_error(results, k),
        forall|i: int| k <= i < DEVICE_INDEX_CANDIDATE_COUNT * d.interface_count ==> !spec_finds(#[trigger] results[i]),
    ensures
        spec_discovery_run(d, results) == (
            DEVICE_INDEX_CANDIDATE_COUNT * d.interface_count - k,
            spec_finish::<D, E>(
                spec_offline_seen(results, DEVICE_INDEX_CANDIDATE_COUNT * d.interface_count),
                spec_last_error(results, DEVICE_INDEX_CANDIDATE_COUNT * d.interface_count),
            ),
        ),
    decreases DEVICE_INDEX_CANDIDATE_COUNT * d.interface_count - k,
{
    lemma_rank_bounds(d, k);
    if d.at_probe() {
        let answer = results[k];
        assert(!spec_finds(answer));
        lemma_rank_advances(d, k, answer);
        lemma_run_exhausts(spec_after_probe(d, answer), results, k + 1);
    }
}

/// Over a whole discovery run in which every probe starts before the
/// deadline, with `results[n]` the outcome of the `n`-th probe: probes go
/// in index-major order (see `lemma_probe_order_is_index_major`); the first
/// probe that finds the mouse ends the run, after exactly that many probes,
/// with what it found; if none finds it, all seven probes per interface are
/// made and the run ends offline if any receiver reported the mouse
/// offline, else with the last error, else with nothing found.
pub proof fn lemma_discovery_run<D, E>(interface_count: usize, deadline: u64, results: Seq<Result<ProbeOutcome<D>, E>>)
    ensures
        ({
            let start = Discover::<E> {
                interface_count,
                deadline,
                candidate: 0,
                interface: 0,
                offline: false,
                last_error: None,
                finished: false,
            };
            let probes = DEVICE_INDEX_CANDIDATE_COUNT * interface_count;
            &&& forall|j: int, found: D|
                0 <= j < probes && results[j] == Ok::<ProbeOutcome<D>, E>(ProbeOutcome::Found(found))
                    && (forall|i: int| 0 <= i < j ==> !spec_finds(#[trigger] results[i]))
                    ==> #[trigger] spec_discovery_run(start, results) == (j + 1, Ok::<Discovery<D>, E>(Discovery::Found(found)))
            &&& (forall|i: int| 0 <= i < probes ==> !spec_finds(#[trigger] results[i]))
                ==> spec_discovery_run(start, results) == (probes as int, spec_finish::<D, E>(
                    spec_offline_seen(results, probes as int),
                    spec_last_error(results, probes as int),
                ))
        }),
{
    let start = Discover::<E> {
        interface_count,
        deadline,
        candidate: 0,
        interface: 0,
        offline: false,
        last_error: None,
        finished: false,
    };
    let probes = DEVICE_INDEX_CANDIDATE_COUNT * interface_count;
    assert(spec_at_rank(start, 0));
    assert forall|j: int, found: D|
        0 <= j < probes && results[j] == Ok::<ProbeOutcome<D>, E>(ProbeOutcome::Found(found))
            && (forall|i: int| 0 <= i < j ==> !spec_finds(#[trigger] results[i]))
        implies #[trigger] spec_discovery_run(start, results) == (j + 1, Ok::<Discovery<D>, E>(Discovery::Found(found))) by {
        lemma_run_finds(start, results, 0, j, found);
    }
    if forall|i: int| 0 <= i < probes ==> !spec_finds(#[trigger] results[i]) {
        lemma_run_exhausts(start, results, 0);
    }
}

/// Once the budget is spent no further probe starts; discovery ends with
/// what it has seen.
pub proof fn lemma_spent_budget_ends_discovery<D, E>(d: Discover<E>, now: u64)
    requires
        now >= d.deadline,
    ensures
        d.spec_action_here::<D>(now) == DiscoverAction::<D, E>::Done(spec_finish(d.offline, d.last_error)),
{
}

/// A receiver's offline report outranks an error on another interface,
/// and an error outranks finding nothing.
pub proof fn lemma_offline_outranks_errors<D, E>(last_error: Option<E>, error: E)
    ensures
        spec_finish::<D, E>(true, last_error) == Ok::<Discovery<D>, E>(Discovery::Offline),
        spec_finish::<D, E>(false, Some(error)) == Err::<Discovery<D>, E>(error),
        spec_finish::<D, E>(false, None) == Ok::<Discovery<D>, E>(Discovery::NotFound),
{
}

/// A failed lookup ends the probe with its error, unchanged. Silence on
/// the UNIFIED_BATTERY lookup ends the probe as absent; only a
/// device that says UNIFIED_BATTERY is unsupported is asked for
/// BATTERY_STATUS, and no lookup waits longer than one response timeout or
/// past the discovery deadline.
pub proof fn lemma_legacy_lookup_only_after_unsupported<E>(probe: FeatureProbe, lookup: FeatureLookup, error: HidppError<E>, now: u64)
    requires
        probe.phase == FeatureProbePhase::UnifiedLookup || probe.phase == FeatureProbePhase::LegacyLookup,
    ensures
        spec_after_lookup::<E>(probe, Ok(lookup), now).1 is Lookup <==> probe.phase == FeatureProbePhase::UnifiedLookup
            && lookup == FeatureLookup::Unsupported,
        lookup == FeatureLookup::Silent ==> spec_after_lookup::<E>(probe, Ok(lookup), now).1 == FeatureProbeAction::<E>::Done(Ok(ProbeOutcome::Absent)),
        spec_after_lookup::<E>(probe, Err(error), now) == (FeatureProbePhase::Done, FeatureProbeAction::<E>::Done(Err(error))),
        spec_after_lookup::<E>(probe, Ok(lookup), now).1 matches FeatureProbeAction::Lookup(request) ==> request.timeout
            <= crate::exchange::RESPONSE_TIMEOUT && (now + request.timeout <= probe.deadline || request.timeout == 0),
{
}

/// The probe of one device index as a whole: the UNIFIED_BATTERY lookup
/// decides unless the device says the feature is unsupported, in which case
/// one BATTERY_STATUS lookup decides; a failed lookup ends the probe with its
/// error, unchanged.
pub proof fn lemma_feature_probe_run<E>(
    device_index: u8,
    deadline: u64,
    first_done: u64,
    unified: Result<FeatureLookup, HidppError<E>>,
    second_done: u64,
    legacy: Result<FeatureLookup, HidppError<E>>,
)
    ensures
        ({
            let probe = FeatureProbe { device_index, deadline, phase: FeatureProbePhase::UnifiedLookup };
            let (after_unified, first) = spec_after_lookup(probe, unified, first_done);
            let second = spec_after_lookup(FeatureProbe { device_index, deadline, phase: after_unified }, legacy, second_done).1;
            match unified {
                Err(error) => first == FeatureProbeAction::<E>::Done(Err(error)),
                Ok(FeatureLookup::Index(index)) => first == FeatureProbeAction::<E>::Done(Ok(ProbeOutcome::Found(BatteryFeature::Unified(index)))),
                Ok(FeatureLookup::Offline) => first == FeatureProbeAction::<E>::Done(Ok(ProbeOutcome::Offline)),
                Ok(FeatureLookup::Silent) => first == FeatureProbeAction::<E>::Done(Ok(ProbeOutcome::Absent)),
                Ok(FeatureLookup::Unsupported) => {
                    &&& first == FeatureProbeAction::<E>::Lookup(spec_lookup(device_index, FEATURE_BATTERY_STATUS, first_done, deadline))
                    &&& match legacy {
                        Err(error) => second == FeatureProbeAction::<E>::Done(Err(error)),
                        Ok(FeatureLookup::Index(index)) => second == FeatureProbeAction::<E>::Done(Ok(ProbeOutcome::Found(BatteryFeature::Legacy(index)))),
                        Ok(FeatureLookup::Offline) => second == FeatureProbeAction::<E>::Done(Ok(ProbeOutcome::Offline)),
                        Ok(_) => second == FeatureProbeAction::<E>::Done(Ok(ProbeOutcome::Absent)),
                    }
                },
            }
        }),
{
}

/// An interface opened for probing on first use and reused across device
/// indices.
#[derive(Debug)]
pub enum ProbeSlot<D> {
    Unopened,
    Open(D),
    Failed,
}

impl<D> ProbeSlot<D> {
    pub fn new() -> (r: Self)
        ensures
            r is Unopened,
    {
        ProbeSlot::Unopened
    }

    /// Whether the interface still has to be opened.
    pub fn needs_open(&self) -> (r: bool)
        ensures
            r == self is Unopened,
    {
        match self {
            ProbeSlot::Unopened => true,
            _ => false,
        }
    }

    /// Keep what opening the interface gave. Only the first failed open
    /// reports its error; the slot is skipped afterwards.
    pub fn record_open<E>(&mut self, opened: Result<D, E>) -> (r: Result<(), E>)
        requires
            *old(self) is Unopened,
        ensures
            match opened {
                Ok(device) => r is Ok && *final(self) == ProbeSlot::Open(device),
                Err(error) => r == Err::<(), E>(error) && *final(self) is Failed,
            },
    {
        match opened {
            Ok(device) => {
                *self = ProbeSlot::Open(device);
                Ok(())
            },
            Err(error) => {
                *self = ProbeSlot::Failed;
                Err(error)
            },
        }
    }

    /// Open the interface on its first probe. `open` runs only while the
    /// slot has never been opened; a failed open is reported this once and
    /// later probes find the slot failed. Afterwards the slot never needs
    /// opening again, so each interface is opened at most once.
    pub fn ensure_open<E, F: FnOnce() -> Result<D, E>>(&mut self, open: F) -> (r: Result<(), E>)
        requires
            *old(self) is Unopened ==> call_requires(open, ()),
        ensures
            !(*final(self) is Unopened),
            match *old(self) {
                ProbeSlot::Unopened => exists|opened: Result<D, E>| #[trigger] call_ensures(open, (), opened) && match opened {
                    Ok(device) => r is Ok && *final(self) == ProbeSlot::Open(device),
                    Err(error) => r == Err::<(), E>(error) && *final(self) is Failed,
                },
                _ => r is Ok && *final(self) == *old(self),
            },
    {
        if self.needs_open() {
            let opened = open();
            self.record_open(opened)
        } else {
            Ok(())
        }
    }

    /// The open interface, if opening it succeeded.
    pub fn device(&self) -> (r: Option<&D>)
        ensures
            match self {
                ProbeSlot::Open(device) => r == Some(device),
                _ => r is None,
            },
    {
        match self {
            ProbeSlot::Open(device) => Some(device),
            _ => None,
        }
    }

    /// Hand the open interface over to the transport that found the mouse;
    /// the slot is not probed again.
    pub fn take(&mut self) -> (r: Option<D>)
        ensures
            *final(self) is Failed,
            match *old(self) {
                ProbeSlot::Open(device) => r == Some(device),
                _ => r is None,
            },
    {
        let mut slot = ProbeSlot::Failed;
        std::mem::swap(self, &mut slot);
        match slot {
            ProbeSlot::Open(device) => Some(device),
            _ => None,
        }
    }
}

} // verus!
