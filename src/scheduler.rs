//! The coordinator's round-robin scheduler. Each tick is split in two steps
//! around the call to the worker: `begin_schedule` reclaims timed-out slots
//! and picks the next idle slot with the next nonce range; `finish_schedule`
//! applies the worker's reply.
use vstd::prelude::*;
use candid::Principal;
use crate::metrics::sat_add;
use crate::miner::MiningStatus;

verus! {

/// How long an assigned chunk may stay unanswered, in nanoseconds.
pub const ASSIGN_TIMEOUT_NS: u64 = 10_000_000_000;

/// Failures after which a slot is quarantined.
pub const MAX_FAILURES: u32 = 3;

/// The coordinator's view of one worker.
#[derive(Debug)]
pub struct MinerSlot {
    pub id: Principal,
    pub busy: bool,
    pub assigned_at: u64,
    pub failures: u32,
    pub total_chunks: u64,
    pub successful_chunks: u64,
}

/// The state of one search.
pub struct CoordinatorState {
    pub miners: Vec<MinerSlot>,
    pub next_nonce: u64,
    pub chunk_size: u64,
    pub running: bool,
    pub rr_cursor: usize,
    pub solution_found: Option<(u64, String)>,
    pub total_chunks_assigned: u64,
    pub started_at: u64,
    /// The nonce ranges `[start, end)` dispatched so far, in order.
    pub assigned: Ghost<Seq<(int, int)>>,
}

/// A chunk handed to a worker: the slot, its worker, and the nonce range
/// `[start, start + size)`.
#[derive(Debug)]
pub struct ChunkAssignment {
    pub slot_index: usize,
    pub miner: Principal,
    pub start: u64,
    pub size: u64,
}

/// Counts over a search's slots.
#[derive(Clone, Debug, PartialEq, Eq)]
pub struct SchedulerStats {
    pub running: bool,
    pub total_miners: usize,
    pub idle_miners: usize,
    pub busy_miners: usize,
    pub failed_miners: usize,
    pub total_chunks_assigned: u64,
    pub next_nonce: u64,
    pub solution: Option<(u64, String)>,
    pub uptime_seconds: u64,
}

/// The slot has been quarantined.
pub open spec fn quarantined(s: MinerSlot) -> bool {
    s.failures >= MAX_FAILURES
}

/// The slot can take a chunk.
pub open spec fn eligible(s: MinerSlot) -> bool {
    !s.busy && !quarantined(s)
}

/// The slot's chunk has gone unanswered for longer than the timeout.
pub open spec fn timed_out(s: MinerSlot, now: u64) -> bool {
    s.busy && now - s.assigned_at > ASSIGN_TIMEOUT_NS
}

/// `s` after the reclamation sweep at `now`.
pub open spec fn reclaimed(s: MinerSlot, now: u64) -> MinerSlot {
    if timed_out(s, now) {
        MinerSlot { busy: false, assigned_at: 0, failures: sat_add32(s.failures, 1), ..s }
    } else {
        s
    }
}

/// `a + b`, saturated at `u32::MAX`.
pub open spec fn sat_add32(a: u32, b: int) -> u32 {
    if a + b > u32::MAX {
        u32::MAX
    } else {
        (a + b) as u32
    }
}

/// All slots after the reclamation sweep at `now`.
pub open spec fn swept(slots: Seq<MinerSlot>, now: u64) -> Seq<MinerSlot> {
    slots.map_values(|s: MinerSlot| reclaimed(s, now))
}

/// `s` after taking a chunk at `now`.
pub open spec fn picked(s: MinerSlot, now: u64) -> MinerSlot {
    MinerSlot { busy: true, assigned_at: now, total_chunks: sat_add(s.total_chunks, 1), ..s }
}

/// The slot examined by the `k`-th probe from cursor `c` over `n` slots.
pub open spec fn probe_index(c: int, k: int, n: int) -> int {
    if c + k < n {
        c + k
    } else {
        c + k - n
    }
}

impl CoordinatorState {
    /// The invariants of a search: the cursor is a slot; the dispatched
    /// ranges lie in order below `next_nonce`, each ending before the next
    /// starts; and a latched solution means the search is no longer running.
    pub open spec fn wf(&self) -> bool {
        &&& self.miners@.len() > 0 ==> self.rr_cursor < self.miners@.len()
        &&& forall|i: int|
            0 <= i < self.assigned@.len() ==> #[trigger] self.assigned@[i].0 <= self.assigned@[i].1
                <= self.next_nonce
        &&& forall|i: int, j: int|
            0 <= i < j < self.assigned@.len() ==> #[trigger] self.assigned@[i].1
                <= #[trigger] self.assigned@[j].0
        &&& self.solution_found is Some ==> !self.running
    }
}

/// `x` lies in the half-open range `[r.0, r.1)`.
pub open spec fn in_range(r: (int, int), x: int) -> bool {
    r.0 <= x < r.1
}

/// Nonce ranges dispatched within one search never overlap.
pub proof fn lemma_assigned_ranges_disjoint(st: &CoordinatorState, i: int, j: int)
    requires
        st.wf(),
        0 <= i < st.assigned@.len(),
        0 <= j < st.assigned@.len(),
        i != j,
    ensures
        forall|x: int| !(#[trigger] in_range(st.assigned@[i], x) && in_range(st.assigned@[j], x)),
{
    if i < j {
        assert(st.assigned@[i].1 <= st.assigned@[j].0);
    } else {
        assert(st.assigned@[j].1 <= st.assigned@[i].0);
    }
}

/// Once a solution is latched the search is not running.
pub proof fn lemma_latch_stops_search(st: &CoordinatorState)
    requires
        st.wf(),
    ensures
        st.solution_found is Some ==> !st.running,
{
}

/// A fresh search over `miners`: every slot idle with no failures, running,
/// the cursor at the first slot, nonces from `start_nonce`, no solution.
pub fn start_scheduler(
    state: &mut Option<CoordinatorState>,
    miners: Vec<Principal>,
    start_nonce: u64,
    chunk_size: u64,
    now: u64,
)
    ensures
        *final(state) matches Some(st) && {
            &&& st.wf()
            &&& st.miners@.len() == miners@.len()
            &&& forall|i: int|
                0 <= i < miners@.len() ==> #[trigger] st.miners@[i] == (MinerSlot {
                    id: miners@[i],
                    busy: false,
                    assigned_at: 0,
                    failures: 0,
                    total_chunks: 0,
                    successful_chunks: 0,
                })
            &&& st.next_nonce == start_nonce
            &&& st.chunk_size == chunk_size
            &&& st.running
            &&& st.rr_cursor == 0
            &&& st.solution_found is None
            &&& st.total_chunks_assigned == 0
            &&& st.started_at == now
            &&& st.assigned@.len() == 0
        },
{
    let mut slots: Vec<MinerSlot> = Vec::new();
    let mut i: usize = 0;
    while i < miners.len()
        invariant
            i <= miners@.len(),
            slots@.len() == i,
            forall|j: int|
                0 <= j < i ==> #[trigger] slots@[j] == (MinerSlot {
                    id: miners@[j],
                    busy: false,
                    assigned_at: 0,
                    failures: 0,
                    total_chunks: 0,
                    successful_chunks: 0,
                }),
        decreases miners@.len() - i,
    {
        slots.push(
            MinerSlot {
                id: miners[i],
                busy: false,
                assigned_at: 0,
                failures: 0,
                total_chunks: 0,
                successful_chunks: 0,
            },
        );
        i += 1;
    }
    *state = Some(
        CoordinatorState {
            miners: slots,
            next_nonce: start_nonce,
            chunk_size,
            running: true,
            rr_cursor: 0,
            solution_found: None,
            total_chunks_assigned: 0,
            started_at: now,
            assigned: Ghost(Seq::empty()),
        },
    );
}

/// `new` and `r` are what one scheduling step at `now` makes of the running
/// search `st` with no solution and at least one slot: the sweep reclaims
/// timed-out slots; unless the nonce space is exhausted, up to one probe per
/// slot from the cursor finds the first eligible slot, which takes the range
/// `[next_nonce, next_nonce + chunk_size)`, and the cursor moves past it.
pub open spec fn schedule_step(
    st: CoordinatorState,
    new: CoordinatorState,
    now: u64,
    r: Option<ChunkAssignment>,
) -> bool {
    let slots = swept(st.miners@, now);
    let n = slots.len() as int;
    let c = st.rr_cursor as int;
    if st.next_nonce + st.chunk_size > u64::MAX {
        &&& r is None
        &&& new.miners@ == slots
        &&& new == (CoordinatorState { miners: new.miners, ..st })
    } else {
        match r {
            None => {
                &&& forall|k: int| 0 <= k < n ==> !eligible(#[trigger] slots[probe_index(c, k, n)])
                &&& new.miners@ == slots
                &&& new == (CoordinatorState { miners: new.miners, ..st })
            },
            Some(a) => exists|k: int|
                #![trigger probe_index(c, k, n)]
                {
                    let i = probe_index(c, k, n);
                    &&& 0 <= k < n
                    &&& eligible(slots[i])
                    &&& forall|j: int| 0 <= j < k ==> !eligible(#[trigger] slots[probe_index(c, j, n)])
                    &&& a.slot_index == i
                    &&& a.miner == slots[i].id
                    &&& a.start == st.next_nonce
                    &&& a.size == st.chunk_size
                    &&& new.miners@ == slots.update(i, picked(slots[i], now))
                    &&& new == (CoordinatorState {
                        miners: new.miners,
                        rr_cursor: probe_index(c, k + 1, n) as usize,
                        next_nonce: (st.next_nonce + st.chunk_size) as u64,
                        total_chunks_assigned: sat_add(st.total_chunks_assigned, 1),
                        assigned: Ghost(
                            st.assigned@.push(
                                (st.next_nonce as int, st.next_nonce + st.chunk_size),
                            ),
                        ),
                        ..st
                    })
                },
        }
    }
}

/// The reclamation sweep: every slot whose chunk has timed out becomes idle
/// with one more failure.
fn sweep_timeouts(miners: &mut Vec<MinerSlot>, now: u64)
    ensures
        final(miners)@ == swept(old(miners)@, now),
{
    let ghost orig = miners@;
    let n = miners.len();
    let mut i: usize = 0;
    while i < n
        invariant
            n == miners@.len(),
            n == orig.len(),
            i <= n,
            forall|j: int| 0 <= j < i ==> #[trigger] miners@[j] == reclaimed(orig[j], now),
            forall|j: int| i <= j < n ==> #[trigger] miners@[j] == orig[j],
        decreases n - i,
    {
        let slot = copy_slot(&miners[i]);
        if slot.busy && now.saturating_sub(slot.assigned_at) > ASSIGN_TIMEOUT_NS {
            miners.set(
                i,
                MinerSlot {
                    busy: false,
                    assigned_at: 0,
                    failures: slot.failures.saturating_add(1),
                    ..slot
                },
            );
        }
        i += 1;
    }
    assert(miners@ =~= swept(orig, now));
}

/// Probes up to one slot per position from `cursor` on, wrapping around,
/// for the first eligible slot; returns it with the cursor moved past it, or
/// `None` with the cursor where it was.
fn find_eligible(miners: &Vec<MinerSlot>, cursor: usize) -> (r: (Option<usize>, usize))
    requires
        cursor < miners@.len(),
    ensures
        match r.0 {
            None => r.1 == cursor && forall|k: int|
                0 <= k < miners@.len() ==> !eligible(
                    #[trigger] miners@[probe_index(cursor as int, k, miners@.len() as int)],
                ),
            Some(i) => exists|k: int|
                #![trigger probe_index(cursor as int, k, miners@.len() as int)]
                {
                    &&& 0 <= k < miners@.len()
                    &&& i == probe_index(cursor as int, k, miners@.len() as int)
                    &&& eligible(miners@[i as int])
                    &&& forall|j: int|
                        0 <= j < k ==> !eligible(
                            #[trigger] miners@[probe_index(cursor as int, j, miners@.len() as int)],
                        )
                    &&& r.1 == probe_index(cursor as int, k + 1, miners@.len() as int)
                },
        },
{
    let n = miners.len();
    let mut probes: usize = 0;
    let mut at: usize = cursor;
    while probes < n
        invariant
            n == miners@.len(),
            cursor < n,
            probes <= n,
            at == probe_index(cursor as int, probes as int, n as int),
            forall|j: int|
                0 <= j < probes ==> !eligible(
                    #[trigger] miners@[probe_index(cursor as int, j, n as int)],
                ),
        decreases n - probes,
    {
        let idx = at;
        at = if idx + 1 < n {
            idx + 1
        } else {
            0
        };
        let slot = &miners[idx];
        if !slot.busy && slot.failures < MAX_FAILURES {
            return (Some(idx), at);
        }
        probes += 1;
    }
    (None, at)
}

fn copy_slot(s: &MinerSlot) -> (r: MinerSlot)
    ensures
        r == *s,
{
    MinerSlot {
        id: s.id,
        busy: s.busy,
        assigned_at: s.assigned_at,
        failures: s.failures,
        total_chunks: s.total_chunks,
        successful_chunks: s.successful_chunks,
    }
}

/// Gives the slot at `idx` the next nonce range at `now`.
fn assign_chunk(st: &mut CoordinatorState, idx: usize, now: u64) -> (r: ChunkAssignment)
    requires
        old(st).wf(),
        idx < old(st).miners@.len(),
        old(st).next_nonce + old(st).chunk_size <= u64::MAX,
    ensures
        final(st).wf(),
        r.slot_index == idx,
        r.miner == old(st).miners@[idx as int].id,
        r.start == old(st).next_nonce,
        r.size == old(st).chunk_size,
        final(st).miners@ == old(st).miners@.update(idx as int, picked(old(st).miners@[idx as int], now)),
        *final(st) == (CoordinatorState {
            miners: final(st).miners,
            next_nonce: (old(st).next_nonce + old(st).chunk_size) as u64,
            total_chunks_assigned: sat_add(old(st).total_chunks_assigned, 1),
            assigned: Ghost(
                old(st).assigned@.push(
                    (old(st).next_nonce as int, old(st).next_nonce + old(st).chunk_size),
                ),
            ),
            ..*old(st)
        }),
{
    let ghost orig = *st;
    let slot = copy_slot(&st.miners[idx]);
    let start = st.next_nonce;
    let size = st.chunk_size;
    st.next_nonce = start + size;
    st.total_chunks_assigned = st.total_chunks_assigned.saturating_add(1);
    st.miners.set(
        idx,
        MinerSlot { busy: true, assigned_at: now, total_chunks: slot.total_chunks.saturating_add(1), ..slot },
    );
    st.assigned = Ghost(st.assigned@.push((start as int, start + size)));
    proof {
        assert(st.miners@ =~= orig.miners@.update(idx as int, picked(orig.miners@[idx as int], now)));
        assert forall|x: int|
            0 <= x < st.assigned@.len() implies #[trigger] st.assigned@[x].0 <= st.assigned@[x].1
            <= st.next_nonce by {
            if x < orig.assigned@.len() {
                assert(orig.assigned@[x].0 <= orig.assigned@[x].1 <= orig.next_nonce);
            }
        }
        assert forall|x: int, y: int|
            0 <= x < y < st.assigned@.len() implies #[trigger] st.assigned@[x].1
            <= #[trigger] st.assigned@[y].0 by {
            if y < orig.assigned@.len() {
                assert(orig.assigned@[x].1 <= orig.assigned@[y].0);
            } else {
                assert(orig.assigned@[x].0 <= orig.assigned@[x].1 <= orig.next_nonce);
            }
        }
    }
    ChunkAssignment { slot_index: idx, miner: slot.id, start, size }
}

/// One scheduling step of a running, unsolved search with at least one slot.
#[verifier::rlimit(60)]
fn schedule_running(st: &mut CoordinatorState, now: u64) -> (r: Option<ChunkAssignment>)
    requires
        old(st).wf(),
        old(st).running,
        old(st).solution_found is None,
        old(st).miners@.len() > 0,
    ensures
        final(st).wf(),
        schedule_step(*old(st), *final(st), now, r),
{
    let ghost orig = *st;
    sweep_timeouts(&mut st.miners, now);
    if st.next_nonce > u64::MAX - st.chunk_size {
        return None;
    }
    let ghost slots = st.miners@;
    let (found, cursor) = find_eligible(&st.miners, st.rr_cursor);
    st.rr_cursor = cursor;
    match found {
        None => None,
        Some(idx) => {
            let ghost n = slots.len() as int;
            let ghost c = orig.rr_cursor as int;
            let ghost k = choose|k: int|
                #![trigger probe_index(c, k, n)]
                {
                    &&& 0 <= k < n
                    &&& idx == probe_index(c, k, n)
                    &&& eligible(slots[idx as int])
                    &&& forall|j: int| 0 <= j < k ==> !eligible(#[trigger] slots[probe_index(c, j, n)])
                    &&& cursor == probe_index(c, k + 1, n)
                };
            let assignment = assign_chunk(st, idx, now);
            assert(probe_index(c, k, n) == idx);
            Some(assignment)
        },
    }
}

/// The first half of a tick: unless the search is absent, stopped, solved or
/// has no slots (then nothing changes), timed-out slots are reclaimed and
/// the next eligible slot in round-robin order, if any, is assigned the next
/// nonce range. A range that would run past `u64::MAX` is not handed out:
/// the nonce space is then exhausted and no slot is picked.
pub fn begin_schedule(state: &mut Option<CoordinatorState>, now: u64) -> (r: Option<
    ChunkAssignment,
>)
    requires
        *old(state) matches Some(st) ==> st.wf(),
    ensures
        *final(state) matches Some(st) ==> st.wf(),
        match *old(state) {
            None => r is None && *final(state) is None,
            Some(st) => if st.solution_found is Some || !st.running || st.miners@.len() == 0 {
                r is None && *final(state) == *old(state)
            } else {
                *final(state) matches Some(new) && schedule_step(st, new, now, r)
            },
        },
{
    let mut st = match state.take() {
        Some(st) => st,
        None => return None,
    };
    if st.solution_found.is_some() || !st.running || st.miners.len() == 0 {
        *state = Some(st);
        return None;
    }
    let r = schedule_running(&mut st, now);
    *state = Some(st);
    r
}

/// `s` after the worker's reply to its chunk: a solution or a miss counts as
/// a successful chunk (a miss, or a solution that came too late to win, also
/// clears the assignment time); a failed call counts as a failure.
pub open spec fn replied(s: MinerSlot, reply: Option<MiningStatus>, first_solution: bool) -> MinerSlot {
    match reply {
        Some(MiningStatus::Found { .. }) if first_solution => MinerSlot {
            busy: false,
            successful_chunks: sat_add(s.successful_chunks, 1),
            ..s
        },
        Some(_) => MinerSlot {
            busy: false,
            assigned_at: 0,
            successful_chunks: sat_add(s.successful_chunks, 1),
            ..s
        },
        None => MinerSlot { busy: false, assigned_at: 0, failures: sat_add32(s.failures, 1), ..s },
    }
}

/// The second half of a tick: applies the reply of the worker in slot
/// `slot_index` (`None` when the call failed). The first solution observed
/// is latched and stops the search; the result tells whether the stop is to
/// be broadcast, which happens once per search. Later replies, solutions
/// included, only free their slot.
pub fn finish_schedule(
    state: &mut Option<CoordinatorState>,
    slot_index: usize,
    reply: Option<MiningStatus>,
) -> (broadcast: bool)
    requires
        *old(state) matches Some(st) ==> st.wf(),
    ensures
        *final(state) matches Some(st) ==> st.wf(),
        match *old(state) {
            None => !broadcast && *final(state) is None,
            Some(st) => {
                let first = st.solution_found is None && reply matches Some(
                    MiningStatus::Found { .. },
                );
                &&& broadcast == first
                &&& *final(state) matches Some(new) && {
                    &&& new.miners@ == if slot_index < st.miners@.len() {
                        st.miners@.update(
                            slot_index as int,
                            replied(st.miners@[slot_index as int], reply, first),
                        )
                    } else {
                        st.miners@
                    }
                    &&& new == if first {
                        CoordinatorState {
                            miners: new.miners,
                            running: false,
                            solution_found: match reply {
                                Some(MiningStatus::Found { hash, nonce }) => Some((nonce, hash)),
                                _ => None,
                            },
                            ..st
                        }
                    } else {
                        CoordinatorState { miners: new.miners, ..st }
                    }
                }
            },
        },
{
    let mut st = match state.take() {
        Some(st) => st,
        None => return false,
    };
    let ghost orig = st;
    let ghost orig_reply = reply;
    let first = st.solution_found.is_none() && matches!(reply, Some(MiningStatus::Found { .. }));
    if slot_index < st.miners.len() {
        let slot = copy_slot(&st.miners[slot_index]);
        let updated = match &reply {
            Some(MiningStatus::Found { .. }) if first => MinerSlot {
                busy: false,
                successful_chunks: slot.successful_chunks.saturating_add(1),
                ..slot
            },
            Some(_) => MinerSlot {
                busy: false,
                assigned_at: 0,
                successful_chunks: slot.successful_chunks.saturating_add(1),
                ..slot
            },
            None => MinerSlot {
                busy: false,
                assigned_at: 0,
                failures: slot.failures.saturating_add(1),
                ..slot
            },
        };
        st.miners.set(slot_index, updated);
    }
    if first {
        match reply {
            Some(MiningStatus::Found { hash, nonce }) => {
                st.solution_found = Some((nonce, hash));
            },
            _ => {},
        }
        st.running = false;
    }
    *state = Some(st);
    first
}

/// Stops the search, if there is one.
pub fn stop_scheduler(state: &mut Option<CoordinatorState>)
    requires
        *old(state) matches Some(st) ==> st.wf(),
    ensures
        *final(state) matches Some(st) ==> st.wf(),
        match *old(state) {
            None => *final(state) is None,
            Some(st) => *final(state) == Some(CoordinatorState { running: false, ..st }),
        },
{
    if let Some(st) = state {
        st.running = false;
    }
}

/// How many slots of `s` satisfy `p`.
pub open spec fn count_slots(s: Seq<MinerSlot>, p: spec_fn(MinerSlot) -> bool) -> nat
    decreases s.len(),
{
    if s.len() == 0 {
        0
    } else {
        count_slots(s.drop_last(), p) + if p(s.last()) {
            1nat
        } else {
            0nat
        }
    }
}

proof fn lemma_count_slots_bound(s: Seq<MinerSlot>, p: spec_fn(MinerSlot) -> bool)
    ensures
        count_slots(s, p) <= s.len(),
    decreases s.len(),
{
    if s.len() > 0 {
        lemma_count_slots_bound(s.drop_last(), p);
    }
}

/// The counts over `st`'s slots at `now`.
pub open spec fn stats_of(st: CoordinatorState, now: u64) -> SchedulerStats {
    SchedulerStats {
        running: st.running,
        total_miners: st.miners@.len() as usize,
        idle_miners: count_slots(st.miners@, |m: MinerSlot| !m.busy) as usize,
        busy_miners: count_slots(st.miners@, |m: MinerSlot| m.busy) as usize,
        failed_miners: count_slots(st.miners@, |m: MinerSlot| quarantined(m)) as usize,
        total_chunks_assigned: st.total_chunks_assigned,
        next_nonce: st.next_nonce,
        solution: st.solution_found,
        uptime_seconds: (if now >= st.started_at {
            (now - st.started_at) / 1_000_000_000
        } else {
            0
        }) as u64,
    }
}

fn copy_solution(s: &Option<(u64, String)>) -> (r: Option<(u64, String)>)
    ensures
        r == *s,
{
    match s {
        Some((nonce, hash)) => Some((*nonce, hash.clone())),
        None => None,
    }
}

/// Counts over the search's slots, `None` when there is no search. Uptime
/// is in whole seconds since the start, zero if the clock reads earlier.
pub fn get_scheduler_stats(state: &Option<CoordinatorState>, now: u64) -> (r: Option<SchedulerStats>)
    ensures
        match *state {
            None => r is None,
            Some(st) => r == Some(stats_of(st, now)),
        },
{
    let st = match state {
        Some(st) => st,
        None => return None,
    };
    let mut idle: usize = 0;
    let mut busy: usize = 0;
    let mut failed: usize = 0;
    let mut i: usize = 0;
    while i < st.miners.len()
        invariant
            i <= st.miners@.len(),
            idle == count_slots(st.miners@.take(i as int), |m: MinerSlot| !m.busy),
            busy == count_slots(st.miners@.take(i as int), |m: MinerSlot| m.busy),
            failed == count_slots(st.miners@.take(i as int), |m: MinerSlot| quarantined(m)),
        decreases st.miners@.len() - i,
    {
        proof {
            let t = st.miners@.take(i as int + 1);
            assert(t.drop_last() =~= st.miners@.take(i as int));
            lemma_count_slots_bound(st.miners@.take(i as int), |m: MinerSlot| !m.busy);
            lemma_count_slots_bound(st.miners@.take(i as int), |m: MinerSlot| m.busy);
            lemma_count_slots_bound(st.miners@.take(i as int), |m: MinerSlot| quarantined(m));
        }
        if !st.miners[i].busy {
            idle += 1;
        } else {
            busy += 1;
        }
        if st.miners[i].failures >= MAX_FAILURES {
            failed += 1;
        }
        i += 1;
    }
    proof {
        assert(st.miners@.take(i as int) =~= st.miners@);
    }
    Some(
        SchedulerStats {
            running: st.running,
            total_miners: st.miners.len(),
            idle_miners: idle,
            busy_miners: busy,
            failed_miners: failed,
            total_chunks_assigned: st.total_chunks_assigned,
            next_nonce: st.next_nonce,
            solution: copy_solution(&st.solution_found),
            uptime_seconds: now.saturating_sub(st.started_at) / 1_000_000_000,
        },
    )
}

/// The workers to send the stop to: every slot's worker, in roster order.
pub fn broadcast_targets(state: &Option<CoordinatorState>) -> (r: Vec<Principal>)
    ensures
        match *state {
            None => r@.len() == 0,
            Some(st) => r@ == st.miners@.map_values(|m: MinerSlot| m.id),
        },
{
    let mut ids: Vec<Principal> = Vec::new();
    if let Some(st) = state {
        let mut i: usize = 0;
        while i < st.miners.len()
            invariant
                i <= st.miners@.len(),
                ids@ == st.miners@.take(i as int).map_values(|m: MinerSlot| m.id),
            decreases st.miners@.len() - i,
        {
            ids.push(st.miners[i].id);
            i += 1;
            proof {
                assert(ids@ =~= st.miners@.take(i as int).map_values(|m: MinerSlot| m.id));
            }
        }
        proof {
            assert(st.miners@.take(i as int) =~= st.miners@);
        }
    }
    ids
}

} // verus!
