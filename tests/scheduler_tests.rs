use candid::Principal;
use pow_mining::coordinator::{
    first_found, get_scheduler_stats, start_dynamic_mining, stop_dynamic_mining,
    vrf_start_nonces, Coordinator, MiningResult,
};
use pow_mining::miner::MiningStatus;
use pow_mining::scheduler::{
    begin_schedule, broadcast_targets, finish_schedule, start_scheduler, stop_scheduler,
    CoordinatorState,
};
use sha2::{Digest, Sha256};

const SECOND: u64 = 1_000_000_000;

fn worker(i: u8) -> Principal {
    Principal::from_slice(&[i, 1, 2])
}

fn started(n: u8, start: u64, chunk: u64) -> Option<CoordinatorState> {
    let mut state = None;
    start_scheduler(&mut state, (0..n).map(worker).collect(), start, chunk, SECOND);
    state
}

#[test]
fn start_builds_idle_roster() {
    let state = started(3, 1000, 100);
    let st = state.as_ref().unwrap();
    assert_eq!(st.miners.len(), 3);
    assert!(st.running);
    assert_eq!(st.rr_cursor, 0);
    assert_eq!(st.next_nonce, 1000);
    assert!(st.solution_found.is_none());
    assert!(st.miners.iter().all(|m| !m.busy && m.failures == 0 && m.total_chunks == 0));
    assert_eq!(st.miners[2].id, worker(2));
}

#[test]
fn round_robin_dispatches_disjoint_ranges() {
    let mut state = started(3, 1000, 100);
    let mut seen = Vec::new();
    for tick in 0..6u64 {
        let a = begin_schedule(&mut state, SECOND * (2 + tick)).expect("a pick");
        seen.push((a.slot_index, a.start, a.size));
        assert_eq!(a.miner, worker(a.slot_index as u8));
        assert!(!finish_schedule(&mut state, a.slot_index, Some(MiningStatus::Continue { next_nonce: a.start + a.size })));
    }
    assert_eq!(
        seen,
        vec![(0, 1000, 100), (1, 1100, 100), (2, 1200, 100), (0, 1300, 100), (1, 1400, 100), (2, 1500, 100)]
    );
    let st = state.as_ref().unwrap();
    assert_eq!(st.next_nonce, 1600);
    assert_eq!(st.total_chunks_assigned, 6);
    assert!(st.miners.iter().all(|m| m.total_chunks == 2 && m.successful_chunks == 2 && !m.busy));
}

#[test]
fn busy_slots_are_skipped() {
    let mut state = started(2, 0, 10);
    let a = begin_schedule(&mut state, SECOND).unwrap();
    let b = begin_schedule(&mut state, SECOND).unwrap();
    assert_eq!((a.slot_index, b.slot_index), (0, 1));
    assert!(begin_schedule(&mut state, SECOND).is_none());
    let stats = get_scheduler_stats(&Coordinator { target: None, scheduler: state }, 3 * SECOND).unwrap();
    assert_eq!((stats.busy_miners, stats.idle_miners, stats.uptime_seconds), (2, 0, 2));
}

#[test]
fn timeouts_reclaim_and_quarantine() {
    let mut state = started(1, 0, 10);
    let t0 = SECOND;
    assert!(begin_schedule(&mut state, t0).is_some());
    assert!(state.as_ref().unwrap().miners[0].busy);
    // not yet timed out: nothing to pick
    assert!(begin_schedule(&mut state, t0 + 10 * SECOND).is_none());
    let mut now = t0;
    for cycle in 1..=3u32 {
        now += 11 * SECOND;
        let pick = begin_schedule(&mut state, now);
        assert_eq!(state.as_ref().unwrap().miners[0].failures, cycle);
        if cycle < 3 {
            assert!(pick.is_some());
        } else {
            assert!(pick.is_none());
        }
    }
    let st = state.as_ref().unwrap();
    assert!(!st.miners[0].busy);
    assert_eq!(st.miners[0].assigned_at, 0);
    assert!(begin_schedule(&mut state, now + 100 * SECOND).is_none());
    let stats = get_scheduler_stats(&Coordinator { target: None, scheduler: state }, now).unwrap();
    assert_eq!(stats.failed_miners, 1);
}

#[test]
fn call_failures_count_toward_quarantine() {
    let mut state = started(1, 0, 10);
    for _ in 0..3 {
        let a = begin_schedule(&mut state, SECOND).unwrap();
        assert!(!finish_schedule(&mut state, a.slot_index, None));
    }
    assert_eq!(state.as_ref().unwrap().miners[0].failures, 3);
    assert!(begin_schedule(&mut state, 2 * SECOND).is_none());
}

#[test]
fn first_solution_latches_and_broadcasts_once() {
    let mut state = started(2, 0, 10);
    let a = begin_schedule(&mut state, SECOND).unwrap();
    let b = begin_schedule(&mut state, SECOND).unwrap();
    let broadcast = finish_schedule(&mut state, a.slot_index, Some(MiningStatus::Found { hash: "aa".to_string(), nonce: 3 }));
    assert!(broadcast);
    {
        let st = state.as_ref().unwrap();
        assert!(!st.running);
        assert_eq!(st.solution_found, Some((3, "aa".to_string())));
    }
    assert!(!finish_schedule(&mut state, b.slot_index, Some(MiningStatus::Continue { next_nonce: 20 })));
    assert!(!finish_schedule(&mut state, b.slot_index, Some(MiningStatus::Found { hash: "bb".to_string(), nonce: 15 })));
    let st = state.as_ref().unwrap();
    assert_eq!(st.solution_found, Some((3, "aa".to_string())));
    assert!(!st.running);
    assert!(st.miners.iter().all(|m| !m.busy));
    assert_eq!(broadcast_targets(&state), vec![worker(0), worker(1)]);
    assert!(begin_schedule(&mut state, 2 * SECOND).is_none());
}

#[test]
fn stop_halts_dispatch() {
    let mut state = started(2, 0, 10);
    stop_scheduler(&mut state);
    assert!(!state.as_ref().unwrap().running);
    assert!(begin_schedule(&mut state, SECOND).is_none());
    let mut none: Option<CoordinatorState> = None;
    stop_scheduler(&mut none);
    assert!(none.is_none());
    assert!(begin_schedule(&mut none, SECOND).is_none());
    assert!(!finish_schedule(&mut none, 0, None));
    assert!(broadcast_targets(&none).is_empty());
}

#[test]
fn nonce_space_exhaustion_stops_dispatch() {
    let mut state = started(1, u64::MAX - 5, 10);
    assert!(begin_schedule(&mut state, SECOND).is_none());
    assert_eq!(state.as_ref().unwrap().next_nonce, u64::MAX - 5);
}

#[test]
fn dynamic_mining_sets_and_clears_target() {
    let mut c = Coordinator::new();
    assert!(get_scheduler_stats(&c, 0).is_none());
    start_dynamic_mining(&mut c, vec![worker(0)], "blk".to_string(), 12, 500, 50, SECOND);
    assert_eq!(c.target, Some(("blk".to_string(), 12)));
    let stats = get_scheduler_stats(&c, 5 * SECOND).unwrap();
    assert!(stats.running);
    assert_eq!((stats.total_miners, stats.next_nonce, stats.uptime_seconds), (1, 500, 4));
    stop_dynamic_mining(&mut c);
    assert!(c.target.is_none());
    assert!(!get_scheduler_stats(&c, 5 * SECOND).unwrap().running);
}

fn sha(parts: &[&[u8]]) -> Vec<u8> {
    let mut h = Sha256::new();
    for p in parts {
        h.update(p);
    }
    h.finalize().to_vec()
}

#[test]
fn vrf_starts_follow_seed_derivation() {
    let base = u64::MAX - 10;
    let range = 1u64 << 62;
    let starts = vrf_start_nonces(5, "prevhash", 9, base, range);
    assert_eq!(starts.len(), 5);
    let seed = sha(&[b"prevhash", &9u64.to_le_bytes()]);
    for (i, s) in starts.iter().enumerate() {
        let out = sha(&[&seed, &(i as u64).to_le_bytes()]);
        let offset = u64::from_le_bytes(out[0..8].try_into().unwrap());
        let expected = base.wrapping_add(offset).wrapping_add((i as u64).wrapping_mul(range));
        assert_eq!(*s, expected);
    }
    assert!(vrf_start_nonces(0, "prevhash", 9, base, range).is_empty());
}

#[test]
fn first_found_takes_earliest_solution() {
    let replies = vec![
        None,
        Some(MiningStatus::Continue { next_nonce: 4 }),
        Some(MiningStatus::Found { hash: "h1".to_string(), nonce: 5 }),
        Some(MiningStatus::Found { hash: "h2".to_string(), nonce: 6 }),
    ];
    assert_eq!(
        first_found(replies),
        Some(MiningResult { found: true, nonce: 5, hash: "h1".to_string() })
    );
    assert_eq!(first_found(vec![None, Some(MiningStatus::Continue { next_nonce: 1 })]), None);
    assert_eq!(first_found(Vec::new()), None);
}
