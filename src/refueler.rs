//! The refueler's bookkeeping: which canisters are watched with which
//! thresholds, and how a cycle balance is judged against them.
use vstd::prelude::*;
use candid::Principal;

verus! {

/// The low threshold used when none is given.
pub const DEFAULT_LOW_WATERMARK: u128 = 2_000_000_000_000;

/// The critical threshold used when none is given.
pub const DEFAULT_CRITICAL_WATERMARK: u128 = 500_000_000_000;

/// A watched canister with its thresholds.
#[derive(Debug)]
pub struct WatchedCanister {
    pub canister: Principal,
    pub low_watermark: u128,
    pub critical_watermark: u128,
}

/// The judgement of one canister's balance.
#[derive(Debug)]
pub struct CanisterHealth {
    pub canister: Principal,
    pub cycles: u128,
    pub low_watermark: u128,
    pub critical_watermark: u128,
    pub is_low: bool,
    pub is_critical: bool,
    pub last_checked: u64,
}

/// The refueler's state.
#[derive(Debug)]
pub struct RefuelerState {
    pub running: bool,
    pub watched: Vec<WatchedCanister>,
    pub last_report: Vec<CanisterHealth>,
    pub last_tick: u64,
}

/// The ids of the watched canisters, in order.
pub open spec fn watched_ids(s: Seq<WatchedCanister>) -> Seq<Principal> {
    s.map_values(|w: WatchedCanister| w.canister)
}

impl RefuelerState {
    /// Stopped, watching nothing, with no report.
    pub fn new() -> (r: Self)
        ensures
            !r.running,
            r.watched@.len() == 0,
            r.last_report@.len() == 0,
            r.last_tick == 0,
    {
        RefuelerState { running: false, watched: Vec::new(), last_report: Vec::new(), last_tick: 0 }
    }
}

/// Turns polling on.
pub fn start_refueler(state: &mut RefuelerState)
    ensures
        *final(state) == (RefuelerState { running: true, ..*old(state) }),
{
    state.running = true;
}

/// Turns polling off.
pub fn stop_refueler(state: &mut RefuelerState)
    ensures
        *final(state) == (RefuelerState { running: false, ..*old(state) }),
{
    state.running = false;
}

/// Watches `canister` with the given thresholds, or the defaults; a canister
/// already watched keeps its thresholds.
pub fn watch_canister(
    state: &mut RefuelerState,
    canister: Principal,
    low_watermark: Option<u128>,
    critical_watermark: Option<u128>,
)
    ensures
        watched_ids(old(state).watched@).contains(canister) ==> *final(state) == *old(state),
        !watched_ids(old(state).watched@).contains(canister) ==> *final(state) == (RefuelerState {
            watched: final(state).watched,
            ..*old(state)
        }) && final(state).watched@ == old(state).watched@.push(
            WatchedCanister {
                canister,
                low_watermark: match low_watermark {
                    Some(v) => v,
                    None => DEFAULT_LOW_WATERMARK,
                },
                critical_watermark: match critical_watermark {
                    Some(v) => v,
                    None => DEFAULT_CRITICAL_WATERMARK,
                },
            },
        ),
{
    let low = match low_watermark {
        Some(v) => v,
        None => DEFAULT_LOW_WATERMARK,
    };
    let critical = match critical_watermark {
        Some(v) => v,
        None => DEFAULT_CRITICAL_WATERMARK,
    };
    let mut i: usize = 0;
    while i < state.watched.len()
        invariant
            i <= state.watched@.len(),
            forall|j: int| 0 <= j < i ==> #[trigger] state.watched@[j].canister != canister,
        decreases state.watched@.len() - i,
    {
        if state.watched[i].canister == canister {
            assert(watched_ids(state.watched@)[i as int] == canister);
            return ;
        }
        i += 1;
    }
    assert(!watched_ids(state.watched@).contains(canister)) by {
        if watched_ids(state.watched@).contains(canister) {
            let j = choose|j: int| 0 <= j < watched_ids(state.watched@).len() && watched_ids(state.watched@)[j] == canister;
            assert(state.watched@[j].canister == canister);
        }
    }
    state.watched.push(WatchedCanister { canister, low_watermark: low, critical_watermark: critical });
}

/// Stops watching `canister`; the others keep their order.
pub fn unwatch_canister(state: &mut RefuelerState, canister: Principal)
    ensures
        *final(state) == (RefuelerState { watched: final(state).watched, ..*old(state) }),
        final(state).watched@ == old(state).watched@.filter(|w: WatchedCanister| w.canister != canister),
{
    let ghost orig = state.watched@;
    let mut kept: Vec<WatchedCanister> = Vec::new();
    let mut i: usize = 0;
    while i < state.watched.len()
        invariant
            state.watched@ == orig,
            i <= orig.len(),
            kept@ == orig.take(i as int).filter(|w: WatchedCanister| w.canister != canister),
        decreases orig.len() - i,
    {
        let w = &state.watched[i];
        proof {
            reveal(Seq::filter);
            assert(orig.take(i as int + 1).drop_last() =~= orig.take(i as int));
        }
        if w.canister != canister {
            kept.push(WatchedCanister {
                canister: w.canister,
                low_watermark: w.low_watermark,
                critical_watermark: w.critical_watermark,
            });
        }
        i += 1;
    }
    proof {
        assert(orig.take(i as int) =~= orig);
    }
    state.watched = kept;
}

/// The health of a watched canister whose balance reads `cycles` at `now`:
/// low or critical when below the respective threshold. `None` stands for a
/// balance too large for `u128`, which is neither and is reported as zero.
pub fn assess_canister(entry: &WatchedCanister, cycles: Option<u128>, now: u64) -> (r: CanisterHealth)
    ensures
        r.canister == entry.canister,
        r.low_watermark == entry.low_watermark,
        r.critical_watermark == entry.critical_watermark,
        r.last_checked == now,
        match cycles {
            Some(c) => r.cycles == c && r.is_low == (c < entry.low_watermark) && r.is_critical == (c
                < entry.critical_watermark),
            None => r.cycles == 0 && !r.is_low && !r.is_critical,
        },
{
    let (amount, is_low, is_critical) = match cycles {
        Some(c) => (c, c < entry.low_watermark, c < entry.critical_watermark),
        None => (0, false, false),
    };
    CanisterHealth {
        canister: entry.canister,
        cycles: amount,
        low_watermark: entry.low_watermark,
        critical_watermark: entry.critical_watermark,
        is_low,
        is_critical,
        last_checked: now,
    }
}

/// Keeps the report of a polling round finished at `now`.
pub fn record_report(state: &mut RefuelerState, report: Vec<CanisterHealth>, now: u64)
    ensures
        *final(state) == (RefuelerState { last_report: report, last_tick: now, ..*old(state) }),
{
    state.last_report = report;
    state.last_tick = now;
}

fn copy_watched(w: &WatchedCanister) -> (r: WatchedCanister)
    ensures
        r == *w,
{
    WatchedCanister {
        canister: w.canister,
        low_watermark: w.low_watermark,
        critical_watermark: w.critical_watermark,
    }
}

fn copy_health(h: &CanisterHealth) -> (r: CanisterHealth)
    ensures
        r == *h,
{
    CanisterHealth {
        canister: h.canister,
        cycles: h.cycles,
        low_watermark: h.low_watermark,
        critical_watermark: h.critical_watermark,
        is_low: h.is_low,
        is_critical: h.is_critical,
        last_checked: h.last_checked,
    }
}

/// The report of the last polling round.
pub fn last_report(state: &RefuelerState) -> (r: Vec<CanisterHealth>)
    ensures
        r@ == state.last_report@,
{
    let mut out: Vec<CanisterHealth> = Vec::new();
    let mut i: usize = 0;
    while i < state.last_report.len()
        invariant
            i <= state.last_report@.len(),
            out@ == state.last_report@.take(i as int),
        decreases state.last_report@.len() - i,
    {
        out.push(copy_health(&state.last_report[i]));
        i += 1;
        proof {
            assert(out@ =~= state.last_report@.take(i as int));
        }
    }
    proof {
        assert(state.last_report@.take(i as int) =~= state.last_report@);
    }
    out
}

/// A copy of the whole state.
pub fn get_refueler_state(state: &RefuelerState) -> (r: RefuelerState)
    ensures
        r.running == state.running,
        r.watched@ == state.watched@,
        r.last_report@ == state.last_report@,
        r.last_tick == state.last_tick,
{
    let mut watched: Vec<WatchedCanister> = Vec::new();
    let mut i: usize = 0;
    while i < state.watched.len()
        invariant
            i <= state.watched@.len(),
            watched@ == state.watched@.take(i as int),
        decreases state.watched@.len() - i,
    {
        watched.push(copy_watched(&state.watched[i]));
        i += 1;
        proof {
            assert(watched@ =~= state.watched@.take(i as int));
        }
    }
    proof {
        assert(state.watched@.take(i as int) =~= state.watched@);
    }
    RefuelerState {
        running: state.running,
        watched,
        last_report: last_report(state),
        last_tick: state.last_tick,
    }
}

} // verus!
