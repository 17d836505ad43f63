//! A whole discovery over interface slots: each candidate interface is
//! opened on its first probe and at most once, every probe runs on the
//! slot of its interface, and the mouse found comes with that slot's open
//! device. Opening, probing and the clock are the caller's; everything
//! else is decided here.

use vstd::prelude::*;

use crate::discovery::{
    lemma_probe_order_is_index_major, lemma_probes_are_bounded, lemma_rank_advances,
    lemma_rank_bounds, spec_after_probe, spec_at_rank, spec_device_index_candidate, spec_finds,
    spec_finish, spec_last_error, spec_offline_seen, spec_probes_left, Discover, DiscoverAction,
    Discovery, ProbeOutcome, ProbeSlot, DEVICE_INDEX_CANDIDATE_COUNT,
};

verus! {

/// What a discovery that found the mouse hands over: the open interface,
/// its position among the candidates, the device index that answered and
/// what the probe found there.
#[derive(Debug)]
pub struct FoundDevice<D, F> {
    pub device: D,
    pub interface: usize,
    pub device_index: u8,
    pub found: F,
}

/// The slot of an interface whose open went as `opened`.
pub open spec fn spec_slot_for<D, E>(opened: Option<Result<D, E>>) -> ProbeSlot<D> {
    match opened {
        None => ProbeSlot::Unopened,
        Some(Ok(device)) => ProbeSlot::Open(device),
        Some(Err(_)) => ProbeSlot::Failed,
    }
}

/// How the probe of `device_index` on `interface` ends, given how opening
/// the interface went and, on an open interface, what the prober answered.
/// A failed open is reported on the interface's first probe only; later
/// probes of it find nothing.
pub open spec fn spec_slot_probe<D, F, E>(
    opened: Result<D, E>,
    first_probe: bool,
    interface: usize,
    device_index: u8,
    answer: Result<ProbeOutcome<F>, E>,
) -> Result<ProbeOutcome<FoundDevice<D, F>>, E> {
    match opened {
        Err(error) => if first_probe {
            Err(error)
        } else {
            Ok(ProbeOutcome::Absent)
        },
        Ok(device) => match answer {
            Ok(ProbeOutcome::Found(found)) => Ok(ProbeOutcome::Found(FoundDevice { device, interface, device_index, found })),
            Ok(ProbeOutcome::Offline) => Ok(ProbeOutcome::Offline),
            Ok(ProbeOutcome::Absent) => Ok(ProbeOutcome::Absent),
            Err(error) => Err(error),
        },
    }
}

/// A record of a run over `interface_count` slots: `opened[i]` is how the
/// one open of interface `i` went, if it was opened; `outcomes[k]` is how
/// the probe of rank `k` ended and `answers[k]` what the prober said.
/// Interface `i` is opened exactly when its first probe (rank `i`) was
/// made, by one call of `open`; the probe of rank `k` runs on interface
/// `k % interface_count` for candidate `k / interface_count`.
pub open spec fn spec_slot_run<D, F, E, Open, Probe>(
    interface_count: usize,
    open: Open,
    probe: Probe,
    opened: Seq<Option<Result<D, E>>>,
    answers: Seq<Result<ProbeOutcome<F>, E>>,
    outcomes: Seq<Result<ProbeOutcome<FoundDevice<D, F>>, E>>,
) -> bool where Open: Fn(usize) -> Result<D, E>, Probe: Fn(&D, u8) -> Result<ProbeOutcome<F>, E> {
    &&& opened.len() == interface_count
    &&& answers.len() == outcomes.len()
    &&& outcomes.len() <= DEVICE_INDEX_CANDIDATE_COUNT * interface_count
    &&& forall|i: int| 0 <= i < interface_count ==> (#[trigger] opened[i] is Some <==> i < outcomes.len())
    &&& forall|i: int| 0 <= i < interface_count && opened[i] is Some ==> call_ensures(open, (i as usize,), #[trigger] opened[i]->0)
    &&& forall|k: int| 0 <= k < outcomes.len() ==> opened[k % (interface_count as int)] is Some && {
        let interface = k % (interface_count as int);
        let device_index = spec_device_index_candidate(k / (interface_count as int));
        let opened_here = opened[interface]->0;
        &&& (opened_here matches Ok(device) ==> call_ensures(probe, (&device, device_index), answers[k]))
        &&& #[trigger] outcomes[k] == spec_slot_probe(opened_here, k < interface_count, interface as usize, device_index, answers[k])
    }
}

/// How a run that ended with `result` after the probes in `outcomes` came
/// out: the first find ends it with the found device; without a find, every
/// probe was made or the clock reached the deadline, and the run ends offline
/// if a receiver reported the mouse offline, else with the last error, else
/// with nothing found.
pub open spec fn spec_slot_run_result<D, F, E, Now>(
    interface_count: usize,
    deadline: u64,
    now: Now,
    outcomes: Seq<Result<ProbeOutcome<FoundDevice<D, F>>, E>>,
    result: Result<Discovery<FoundDevice<D, F>>, E>,
) -> bool where Now: Fn() -> u64 {
    let n = outcomes.len() as int;
    &&& forall|k: int| 0 <= k < n - 1 ==> !spec_finds(#[trigger] outcomes[k])
    &&& if n > 0 && spec_finds(outcomes[n - 1]) {
        outcomes[n - 1] matches Ok(ProbeOutcome::Found(found)) && result == Ok::<Discovery<FoundDevice<D, F>>, E>(Discovery::Found(found))
    } else {
        &&& result == spec_finish::<FoundDevice<D, F>, E>(spec_offline_seen(outcomes, n), spec_last_error(outcomes, n))
        &&& (n == DEVICE_INDEX_CANDIDATE_COUNT * interface_count || exists|t: u64| #[trigger] call_ensures(now, (), t) && t >= deadline)
    }
}

proof fn lemma_seen_extends<D, E>(outcomes: Seq<Result<ProbeOutcome<D>, E>>, extra: Result<ProbeOutcome<D>, E>, k: int)
    requires
        0 <= k <= outcomes.len(),
    ensures
        spec_offline_seen(outcomes.push(extra), k) == spec_offline_seen(outcomes, k),
        spec_last_error(outcomes.push(extra), k) == spec_last_error(outcomes, k),
    decreases k,
{
    if k > 0 {
        lemma_seen_extends(outcomes, extra, k - 1);
        assert(outcomes.push(extra)[k - 1] == outcomes[k - 1]);
    }
}

/// A probe on an interface records what happened, unchanged: on an open
/// interface a find comes with the interface's device, its position and the
/// device index, an offline report and an absence stay what they are, and
/// a prober's error is that probe's error; a failed open is that error on
/// the interface's first probe and nothing on its later ones.
pub proof fn lemma_slot_probe_keeps_what_happened<D, F, E>(
    opened: Result<D, E>,
    first_probe: bool,
    interface: usize,
    device_index: u8,
    answer: Result<ProbeOutcome<F>, E>,
)
    ensures
        opened matches Ok(device) ==> {
            &&& answer matches Ok(ProbeOutcome::Found(found)) ==> spec_slot_probe(opened, first_probe, interface, device_index, answer)
                == Ok::<ProbeOutcome<FoundDevice<D, F>>, E>(ProbeOutcome::Found(FoundDevice { device, interface, device_index, found }))
            &&& answer == Ok::<ProbeOutcome<F>, E>(ProbeOutcome::Offline) ==> spec_slot_probe(opened, first_probe, interface, device_index, answer)
                == Ok::<ProbeOutcome<FoundDevice<D, F>>, E>(ProbeOutcome::Offline)
            &&& answer == Ok::<ProbeOutcome<F>, E>(ProbeOutcome::Absent) ==> spec_slot_probe(opened, first_probe, interface, device_index, answer)
                == Ok::<ProbeOutcome<FoundDevice<D, F>>, E>(ProbeOutcome::Absent)
            &&& answer matches Err(error) ==> spec_slot_probe(opened, first_probe, interface, device_index, answer)
                == Err::<ProbeOutcome<FoundDevice<D, F>>, E>(error)
        },
        opened matches Err(error) ==> {
            &&& first_probe ==> spec_slot_probe(opened, first_probe, interface, device_index, answer)
                == Err::<ProbeOutcome<FoundDevice<D, F>>, E>(error)
            &&& !first_probe ==> spec_slot_probe(opened, first_probe, interface, device_index, answer)
                == Ok::<ProbeOutcome<FoundDevice<D, F>>, E>(ProbeOutcome::Absent)
        },
{
}

proof fn lemma_last_error_after<D, E>(results: Seq<Result<ProbeOutcome<D>, E>>, k: int, j: int)
    requires
        0 <= j < k <= results.len(),
        results[j] is Err,
        forall|m: int| j < m < k ==> !(#[trigger] results[m] is Err),
    ensures
        spec_last_error(results, k) == Some(results[j]->Err_0),
    decreases k,
{
    if k - 1 != j {
        lemma_last_error_after(results, k - 1, j);
    }
}

proof fn lemma_no_error_before<D, E>(results: Seq<Result<ProbeOutcome<D>, E>>, k: int)
    requires
        0 <= k <= results.len(),
        forall|m: int| 0 <= m < k ==> !(#[trigger] results[m] is Err),
    ensures
        spec_last_error(results, k) == None::<E>,
    decreases k,
{
    if k > 0 {
        lemma_no_error_before(results, k - 1);
    }
}

proof fn lemma_offline_seen_exists<D, E>(results: Seq<Result<ProbeOutcome<D>, E>>, k: int)
    requires
        0 <= k <= results.len(),
    ensures
        spec_offline_seen(results, k) <==> exists|m: int| 0 <= m < k && #[trigger] results[m] == Ok::<ProbeOutcome<D>, E>(ProbeOutcome::Offline),
    decreases k,
{
    if k > 0 {
        lemma_offline_seen_exists(results, k - 1);
        if spec_offline_seen(results, k - 1) {
            let m = choose|m: int| 0 <= m < k - 1 && #[trigger] results[m] == Ok::<ProbeOutcome<D>, E>(ProbeOutcome::Offline);
            assert(0 <= m < k && results[m] == Ok::<ProbeOutcome<D>, E>(ProbeOutcome::Offline));
        }
        if results[k - 1] == Ok::<ProbeOutcome<D>, E>(ProbeOutcome::Offline) {
            assert(0 <= k - 1 < k && results[k - 1] == Ok::<ProbeOutcome<D>, E>(ProbeOutcome::Offline));
        }
        if exists|m: int| 0 <= m < k && #[trigger] results[m] == Ok::<ProbeOutcome<D>, E>(ProbeOutcome::Offline) {
            let m = choose|m: int| 0 <= m < k && #[trigger] results[m] == Ok::<ProbeOutcome<D>, E>(ProbeOutcome::Offline);
            if m < k - 1 {
                assert(exists|m2: int| 0 <= m2 < k - 1 && #[trigger] results[m2] == Ok::<ProbeOutcome<D>, E>(ProbeOutcome::Offline));
            }
        }
    }
}

/// Over the first `k` probe results, an offline report was seen exactly
/// when one of them was an offline report, and the last error is the error
/// of the last probe that failed, or none when none failed.
pub proof fn lemma_offline_and_last_error_come_from_the_probes<D, E>(results: Seq<Result<ProbeOutcome<D>, E>>, k: int, j: int)
    requires
        0 <= k <= results.len(),
    ensures
        spec_offline_seen(results, k) <==> exists|m: int| 0 <= m < k && #[trigger] results[m] == Ok::<ProbeOutcome<D>, E>(ProbeOutcome::Offline),
        0 <= j < k && results[j] is Err && (forall|m: int| j < m < k ==> !(#[trigger] results[m] is Err))
            ==> spec_last_error(results, k) == Some(results[j]->Err_0),
        (forall|m: int| 0 <= m < k ==> !(#[trigger] results[m] is Err)) ==> spec_last_error(results, k) == None::<E>,
{
    lemma_offline_seen_exists(results, k);
    if 0 <= j < k && results[j] is Err && (forall|m: int| j < m < k ==> !(#[trigger] results[m] is Err)) {
        lemma_last_error_after(results, k, j);
    }
    if forall|m: int| 0 <= m < k ==> !(#[trigger] results[m] is Err) {
        lemma_no_error_before(results, k);
    }
}

/// In a run of discovery, a probe of an interface that opened is recorded
/// with the prober's error when the prober failed; and a run with no find
/// and no offline report ends with the error of its last failed probe,
/// whether the prober or the open failed, or with nothing found when no
/// probe failed. An offline report with no find ends it offline.
pub proof fn lemma_run_ends_with_the_last_probe_error<D, F, E, Open, Probe, Now>(
    interface_count: usize,
    deadline: u64,
    open: Open,
    probe: Probe,
    now: Now,
    opened: Seq<Option<Result<D, E>>>,
    answers: Seq<Result<ProbeOutcome<F>, E>>,
    outcomes: Seq<Result<ProbeOutcome<FoundDevice<D, F>>, E>>,
    result: Result<Discovery<FoundDevice<D, F>>, E>,
    j: int,
) where Open: Fn(usize) -> Result<D, E>, Probe: Fn(&D, u8) -> Result<ProbeOutcome<F>, E>, Now: Fn() -> u64
    requires
        spec_slot_run(interface_count, open, probe, opened, answers, outcomes),
        spec_slot_run_result(interface_count, deadline, now, outcomes, result),
    ensures
        forall|k: int| 0 <= k < outcomes.len() && (opened[k % (interface_count as int)] matches Some(Ok(_))) && (#[trigger] answers[k] is Err)
            ==> outcomes[k] == Err::<ProbeOutcome<FoundDevice<D, F>>, E>(answers[k]->Err_0),
        (forall|k: int| 0 <= k < outcomes.len() ==> !spec_finds(#[trigger] outcomes[k])) ==> {
            &&& (exists|k: int| 0 <= k < outcomes.len() && #[trigger] outcomes[k] == Ok::<ProbeOutcome<FoundDevice<D, F>>, E>(ProbeOutcome::Offline))
                ==> result == Ok::<Discovery<FoundDevice<D, F>>, E>(Discovery::Offline)
            &&& (forall|k: int| 0 <= k < outcomes.len() ==> #[trigger] outcomes[k] != Ok::<ProbeOutcome<FoundDevice<D, F>>, E>(ProbeOutcome::Offline))
                && 0 <= j < outcomes.len() && outcomes[j] is Err && (forall|m: int| j < m < outcomes.len() ==> !(#[trigger] outcomes[m] is Err))
                ==> result == Err::<Discovery<FoundDevice<D, F>>, E>(outcomes[j]->Err_0)
            &&& (forall|k: int| 0 <= k < outcomes.len() ==> #[trigger] outcomes[k] != Ok::<ProbeOutcome<FoundDevice<D, F>>, E>(ProbeOutcome::Offline))
                && (forall|m: int| 0 <= m < outcomes.len() ==> !(#[trigger] outcomes[m] is Err))
                ==> result == Ok::<Discovery<FoundDevice<D, F>>, E>(Discovery::NotFound)
        },
{
    let n = outcomes.len() as int;
    assert forall|k: int| 0 <= k < n && (opened[k % (interface_count as int)] matches Some(Ok(_))) && (#[trigger] answers[k] is Err)
        implies outcomes[k] == Err::<ProbeOutcome<FoundDevice<D, F>>, E>(answers[k]->Err_0) by {
        assert(outcomes[k] == spec_slot_probe(opened[k % (interface_count as int)]->0, k < interface_count,
            (k % (interface_count as int)) as usize, spec_device_index_candidate(k / (interface_count as int)), answers[k]));
    }
    lemma_offline_and_last_error_come_from_the_probes(outcomes, n, j);
    if forall|k: int| 0 <= k < n ==> !spec_finds(#[trigger] outcomes[k]) {
        if n > 0 {
            assert(!spec_finds(outcomes[n - 1]));
        }
        if forall|k: int| 0 <= k < n ==> #[trigger] outcomes[k] != Ok::<ProbeOutcome<FoundDevice<D, F>>, E>(ProbeOutcome::Offline) {
            assert(!spec_offline_seen(outcomes, n));
        }
    }
}

/// Discovery over `interface_count` candidate interfaces within `deadline`:
/// probes go in index-major order; interface `k` is opened with `open(k)`
/// on its first probe and never again, a failed open is reported on that
/// probe only; every probe of an open interface asks `probe` on that
/// interface's device; the first find ends discovery with that device, its
/// position and the device index. Without a find the outcome is offline
/// before the last error before nothing found.
pub fn discover_interfaces<D, F, E, Open, Probe, Now>(
    interface_count: usize,
    deadline: u64,
    open: Open,
    probe: Probe,
    now: Now,
) -> (result: Result<Discovery<FoundDevice<D, F>>, E>) where
    Open: Fn(usize) -> Result<D, E>,
    Probe: Fn(&D, u8) -> Result<ProbeOutcome<F>, E>,
    Now: Fn() -> u64,

    requires
        forall|i: usize| call_requires(open, (i,)),
        forall|device: &D, device_index: u8| call_requires(probe, (device, device_index)),
        call_requires(now, ()),
    ensures
        exists|
            opened: Seq<Option<Result<D, E>>>,
            answers: Seq<Result<ProbeOutcome<F>, E>>,
            outcomes: Seq<Result<ProbeOutcome<FoundDevice<D, F>>, E>>,
        |
            #[trigger] spec_slot_run(interface_count, open, probe, opened, answers, outcomes)
                && spec_slot_run_result(interface_count, deadline, now, outcomes, result),
{
    let mut slots: Vec<ProbeSlot<D>> = Vec::new();
    let mut j: usize = 0;
    while j < interface_count
        invariant
            j <= interface_count,
            slots@.len() == j,
            forall|x: int| 0 <= x < j ==> #[trigger] slots@[x] == ProbeSlot::<D>::Unopened,
        decreases interface_count - j,
    {
        slots.push(ProbeSlot::new());
        j = j + 1;
    }
    let ghost mut opened: Seq<Option<Result<D, E>>> = Seq::new(interface_count as nat, |x: int| None);
    let ghost mut answers: Seq<Result<ProbeOutcome<F>, E>> = Seq::empty();
    let ghost mut outcomes: Seq<Result<ProbeOutcome<FoundDevice<D, F>>, E>> = Seq::empty();
    let mut discovery: Discover<E> = Discover::new(interface_count, deadline);
    let started = now();
    let mut action = discovery.start::<FoundDevice<D, F>>(started);
    proof {
        assert(spec_offline_seen(outcomes, 0) == false);
        assert(spec_last_error(outcomes, 0) == None::<E>);
        if action is Done {
            if started >= deadline {
                assert(call_ensures(now, (), started) && started >= deadline);
            } else {
                assert(interface_count == 0);
            }
        }
    }
    loop
        invariant
            discovery.interface_count == interface_count,
            discovery.deadline == deadline,
            forall|i: usize| call_requires(open, (i,)),
            forall|device: &D, device_index: u8| call_requires(probe, (device, device_index)),
            call_requires(now, ()),
            spec_slot_run(interface_count, open, probe, opened, answers, outcomes),
            action is Probe ==> {
                &&& slots@.len() == interface_count
                &&& forall|x: int| 0 <= x < interface_count ==> #[trigger] slots@[x] == spec_slot_for(opened[x])
                &&& spec_at_rank(discovery, outcomes.len() as int)
                &&& discovery.offline == spec_offline_seen(outcomes, outcomes.len() as int)
                &&& discovery.last_error == spec_last_error(outcomes, outcomes.len() as int)
                &&& forall|k: int| 0 <= k < outcomes.len() ==> !spec_finds(#[trigger] outcomes[k])
                &&& discovery.at_probe()
                &&& action == DiscoverAction::<FoundDevice<D, F>, E>::Probe {
                    interface: discovery.interface,
                    device_index: spec_device_index_candidate(discovery.candidate as int),
                }
            },
            action matches DiscoverAction::Done(r) ==> spec_slot_run_result(interface_count, deadline, now, outcomes, r),
        decreases spec_probes_left(discovery),
    {
        match action {
            DiscoverAction::Done(result) => {
                return result;
            },
            DiscoverAction::Probe { interface, device_index } => {
                let ghost n = outcomes.len() as int;
                let ghost before = discovery;
                let ghost opened_before = opened;
                let ghost outcomes_before = outcomes;
                let ghost count = interface_count as int;
                let ghost c = discovery.candidate as int;
                proof {
                    lemma_probe_order_is_index_major(discovery.candidate, discovery.interface, interface_count);
                    lemma_rank_bounds(discovery, n);
                    assert(c * count >= 0) by (nonlinear_arith)
                        requires c >= 0, count >= 0;
                    if c >= 1 {
                        assert(c * count >= count) by (nonlinear_arith)
                            requires c >= 1, count >= 0;
                    }
                    assert(n % count == interface);
                    assert(n / count == c);
                }
                let mut slot = slots.remove(interface);
                assert(slot == spec_slot_for(opened_before[interface as int]));
                let mut open_failure: Option<E> = None;
                let first = slot.needs_open();
                proof {
                    assert(opened_before[interface as int] is Some <==> (interface as int) < n);
                    assert(n == c * count + interface);
                    assert(first == (opened_before[interface as int] is None));
                    if c == 0 {
                        assert(c * count == 0) by (nonlinear_arith)
                            requires c == 0;
                        assert(n == interface);
                    } else {
                        assert(n >= count + interface);
                    }
                    assert(first == (n < count));
                }
                if first {
                    let attempt = open(interface);
                    proof {
                        opened = opened.update(interface as int, Some(attempt));
                    }
                    match slot.record_open(attempt) {
                        Ok(()) => {},
                        Err(error) => {
                            open_failure = Some(error);
                        },
                    }
                }
                proof {
                    assert(opened[interface as int] is Some);
                    match opened[interface as int]->0 {
                        Ok(device) => {
                            assert(open_failure is None);
                            assert(slot == ProbeSlot::Open(device));
                        },
                        Err(error) => {
                            if first {
                                assert(open_failure == Some(error));
                            } else {
                                assert(open_failure is None);
                                assert(slot is Failed);
                            }
                        },
                    }
                }
                let ghost mut answer: Result<ProbeOutcome<F>, E> = vstd::pervasive::arbitrary();
                let outcome: Result<ProbeOutcome<FoundDevice<D, F>>, E> = match open_failure {
                    Some(error) => Err(error),
                    None => match slot.device() {
                        None => Ok(ProbeOutcome::Absent),
                        Some(device) => {
                            let said = probe(device, device_index);
                            proof {
                                answer = said;
                            }
                            match said {
                                Ok(ProbeOutcome::Found(found)) => match slot.take() {
                                    Some(device) => Ok(ProbeOutcome::Found(FoundDevice { device, interface, device_index, found })),
                                    None => Ok(ProbeOutcome::Absent),
                                },
                                Ok(ProbeOutcome::Offline) => Ok(ProbeOutcome::Offline),
                                Ok(ProbeOutcome::Absent) => Ok(ProbeOutcome::Absent),
                                Err(error) => Err(error),
                            }
                        },
                    },
                };
                let found_here = match &outcome {
                    Ok(ProbeOutcome::Found(_)) => true,
                    _ => false,
                };
                if !found_here {
                    slots.insert(interface, slot);
                }
                proof {
                    answers = answers.push(answer);
                    outcomes = outcomes.push(outcome);
                    lemma_seen_extends(outcomes_before, outcome, n);
                    assert(outcomes[n] == outcome);
                    assert(opened[interface as int] is Some);
                    assert(outcome == spec_slot_probe(opened[interface as int]->0, n < count, interface, device_index, answer));
                    assert forall|k: int| 0 <= k < outcomes.len() implies opened[k % count] is Some && {
                        let i = k % count;
                        let index = spec_device_index_candidate(k / count);
                        let opened_here = opened[i]->0;
                        &&& (opened_here matches Ok(device) ==> call_ensures(probe, (&device, index), answers[k]))
                        &&& #[trigger] outcomes[k] == spec_slot_probe(opened_here, k < interface_count, i as usize, index, answers[k])
                    } by {
                        if k < n {
                            assert(outcomes[k] == outcomes_before[k]);
                            assert(opened_before[k % count] is Some);
                            assert(opened[k % count] == opened_before[k % count]);
                        }
                    }
                    assert forall|i: int| 0 <= i < interface_count implies (#[trigger] opened[i] is Some <==> i < outcomes.len()) by {
                        if i != interface {
                            assert(opened[i] == opened_before[i]);
                        }
                    }
                    assert forall|i: int| 0 <= i < interface_count && opened[i] is Some implies call_ensures(open, (i as usize,), #[trigger] opened[i]->0) by {
                        if i != interface || !first {
                            assert(opened[i] == opened_before[i]);
                        }
                    }
                    assert(spec_slot_run(interface_count, open, probe, opened, answers, outcomes));
                    lemma_probes_are_bounded(before, spec_after_probe(before, outcome));
                }
                let t = now();
                action = discovery.on_probe(outcome, t);
                proof {
                    if !found_here {
                        let moved = spec_after_probe(before, outcomes[n]);
                        lemma_rank_advances(before, n, outcomes[n]);
                        lemma_rank_bounds(moved, n + 1);
                        assert forall|k: int| 0 <= k < outcomes.len() implies !spec_finds(#[trigger] outcomes[k]) by {
                            if k < n {
                                assert(outcomes[k] == outcomes_before[k]);
                            }
                        }
                        if action is Probe {
                            assert forall|x: int| 0 <= x < interface_count implies #[trigger] slots@[x] == spec_slot_for(opened[x]) by {
                                if x != interface {
                                    assert(opened[x] == opened_before[x]);
                                }
                            }
                        } else {
                            if !moved.at_probe() {
                                assert(n + 1 == DEVICE_INDEX_CANDIDATE_COUNT * interface_count);
                            } else {
                                assert(call_ensures(now, (), t) && t >= deadline);
                            }
                        }
                    }
                }
            },
        }
    }
}

} // verus!
