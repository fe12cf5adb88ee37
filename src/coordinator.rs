//! The coordinator's entry points: the streaming search target with its
//! scheduler, and the one-shot fan-out whose start nonces are derived from
//! the previous block hash and the round.
use vstd::prelude::*;
use vstd::arithmetic::div_mod::lemma_add_mod_noop;
use vstd::bytes::{spec_u64_from_le_bytes, spec_u64_to_le_bytes, u64_from_le_bytes, u64_to_le_bytes};
use vstd::utf8::encode_utf8;
use candid::Principal;
use crate::hashing::{sha256_digest2, sha256_of};
use crate::miner::MiningStatus;
use crate::scheduler::{
    start_scheduler, stats_of, stop_scheduler, CoordinatorState, MinerSlot, SchedulerStats,
};

verus! {

/// A solution reported by a worker.
#[derive(Clone, Debug, PartialEq, Eq)]
pub struct MiningResult {
    pub found: bool,
    pub nonce: u64,
    pub hash: String,
}

/// The coordinator's state: the block and difficulty of the streaming
/// search, and its scheduler.
pub struct Coordinator {
    pub target: Option<(String, u32)>,
    pub scheduler: Option<CoordinatorState>,
}

/// The seed of a fan-out round: SHA-256 of the previous block hash's UTF-8
/// bytes followed by the round in little-endian order.
pub open spec fn seed_of(prev_block_hash: Seq<char>, round: u64) -> Seq<u8> {
    sha256_of(encode_utf8(prev_block_hash) + spec_u64_to_le_bytes(round))
}

/// A worker's offset: the first eight bytes, little-endian, of SHA-256 of
/// the seed followed by the worker's index in little-endian order.
pub open spec fn offset_of(seed: Seq<u8>, index: u64) -> u64 {
    spec_u64_from_le_bytes(sha256_of(seed + spec_u64_to_le_bytes(index)).subrange(0, 8))
}

/// Worker `i`'s start: `base + offset_i + i * range`, modulo 2^64.
pub open spec fn vrf_start(
    prev_block_hash: Seq<char>,
    round: u64,
    base_start: u64,
    range_per_miner: u64,
    i: int,
) -> u64 {
    ((base_start + offset_of(seed_of(prev_block_hash, round), i as u64) + i * range_per_miner)
        % 0x1_0000_0000_0000_0000) as u64
}

fn vrf_seed(prev_block_hash: &str, round: u64) -> (r: [u8; 32])
    ensures
        r@ == seed_of(prev_block_hash@, round),
{
    let round_bytes = u64_to_le_bytes(round);
    sha256_digest2(prev_block_hash.as_bytes(), round_bytes.as_slice())
}

fn offset_for_miner(seed: &[u8; 32], miner_index: u64) -> (r: u64)
    ensures
        r == offset_of(seed@, miner_index),
{
    let index_bytes = u64_to_le_bytes(miner_index);
    let out = sha256_digest2(seed.as_slice(), index_bytes.as_slice());
    let head = slice_prefix8(&out);
    u64_from_le_bytes(head.as_slice())
}

fn slice_prefix8(bytes: &[u8; 32]) -> (r: Vec<u8>)
    ensures
        r@ == bytes@.subrange(0, 8),
{
    let mut v: Vec<u8> = Vec::new();
    let mut i: usize = 0;
    while i < 8
        invariant
            i <= 8,
            v@ == bytes@.subrange(0, i as int),
        decreases 8 - i,
    {
        v.push(bytes[i]);
        i += 1;
        proof {
            assert(v@ =~= bytes@.subrange(0, i as int));
        }
    }
    v
}

/// The start nonce of each of `miner_count` workers for a fan-out round.
pub fn vrf_start_nonces(
    miner_count: usize,
    prev_block_hash: &str,
    round: u64,
    base_start: u64,
    range_per_miner: u64,
) -> (r: Vec<u64>)
    ensures
        r@.len() == miner_count,
        forall|i: int|
            0 <= i < miner_count ==> #[trigger] r@[i] == vrf_start(
                prev_block_hash@,
                round,
                base_start,
                range_per_miner,
                i,
            ),
{
    let seed = vrf_seed(prev_block_hash, round);
    let mut starts: Vec<u64> = Vec::new();
    let mut i: usize = 0;
    while i < miner_count
        invariant
            i <= miner_count,
            seed@ == seed_of(prev_block_hash@, round),
            starts@.len() == i,
            forall|j: int|
                0 <= j < i ==> #[trigger] starts@[j] == vrf_start(
                    prev_block_hash@,
                    round,
                    base_start,
                    range_per_miner,
                    j,
                ),
        decreases miner_count - i,
    {
        let offset = offset_for_miner(&seed, i as u64);
        let start = base_start.wrapping_add(offset).wrapping_add((i as u64).wrapping_mul(range_per_miner));
        proof {
            let m: int = 0x1_0000_0000_0000_0000;
            let a = base_start as int + offset as int;
            let b = i as int * range_per_miner as int;
            lemma_add_mod_noop(a, b, m);
            assert(a % m + b % m < 2 * m) by {
                assert(0 <= a % m < m);
                assert(0 <= b % m < m);
            }
        }
        starts.push(start);
        i += 1;
    }
    starts
}

/// The result of the first reply, in order, that reports a solution; `None`
/// when none does (a failed call is `None`).
pub fn first_found(replies: Vec<Option<MiningStatus>>) -> (r: Option<MiningResult>)
    ensures
        r is None <==> forall|i: int|
            0 <= i < replies@.len() ==> !(#[trigger] replies@[i] matches Some(
                MiningStatus::Found { .. },
            )),
        r matches Some(res) ==> exists|i: int|
            {
                &&& 0 <= i < replies@.len()
                &&& forall|j: int|
                    0 <= j < i ==> !(#[trigger] replies@[j] matches Some(
                        MiningStatus::Found { .. },
                    ))
                &&& (#[trigger] replies@[i] matches Some(MiningStatus::Found { hash, nonce }) && res
                    == (MiningResult { found: true, nonce, hash }))
            },
{
    let mut i: usize = 0;
    while i < replies.len()
        invariant
            i <= replies@.len(),
            forall|j: int|
                0 <= j < i ==> !(#[trigger] replies@[j] matches Some(MiningStatus::Found { .. })),
        decreases replies@.len() - i,
    {
        if let Some(MiningStatus::Found { hash, nonce }) = &replies[i] {
            return Some(MiningResult { found: true, nonce: *nonce, hash: hash.clone() });
        }
        i += 1;
    }
    None
}

impl Coordinator {
    /// No target and no search.
    pub fn new() -> (r: Self)
        ensures
            r.target is None,
            r.scheduler is None,
    {
        Coordinator { target: None, scheduler: None }
    }
}

/// Sets the block and difficulty of the streaming search and starts a fresh
/// search over `miners` from `start_nonce` in chunks of `chunk_size`.
pub fn start_dynamic_mining(
    coordinator: &mut Coordinator,
    miners: Vec<Principal>,
    block_data: String,
    difficulty: u32,
    start_nonce: u64,
    chunk_size: u64,
    now: u64,
)
    ensures
        final(coordinator).target == Some((block_data, difficulty)),
        final(coordinator).scheduler matches Some(st) && {
            &&& st.wf()
            &&& st.miners@.len() == miners@.len()
            &&& forall|i: int|
                0 <= i < miners@.len() ==> #[trigger] st.miners@[i] == (MinerSlot {
                    id: miners@[i],
                    busy: false,
                    assigned_at: 0,
                    failures: 0,
                    total_chunks: 0,
                    successful_chunks: 0,
                })
            &&& st.next_nonce == start_nonce
            &&& st.chunk_size == chunk_size
            &&& st.running
            &&& st.rr_cursor == 0
            &&& st.solution_found is None
            &&& st.total_chunks_assigned == 0
            &&& st.started_at == now
            &&& st.assigned@.len() == 0
        },
{
    coordinator.target = Some((block_data, difficulty));
    start_scheduler(&mut coordinator.scheduler, miners, start_nonce, chunk_size, now);
}

/// Stops the search and clears the target.
pub fn stop_dynamic_mining(coordinator: &mut Coordinator)
    requires
        old(coordinator).scheduler matches Some(st) ==> st.wf(),
    ensures
        final(coordinator).target is None,
        match old(coordinator).scheduler {
            None => final(coordinator).scheduler is None,
            Some(st) => final(coordinator).scheduler == Some(
                CoordinatorState { running: false, ..st },
            ),
        },
{
    stop_scheduler(&mut coordinator.scheduler);
    coordinator.target = None;
}

/// Counts over the current search's slots, `None` when there is none.
pub fn get_scheduler_stats(coordinator: &Coordinator, now: u64) -> (r: Option<SchedulerStats>)
    ensures
        match coordinator.scheduler {
            None => r is None,
            Some(st) => r == Some(stats_of(st, now)),
        },
{
    crate::scheduler::get_scheduler_stats(&coordinator.scheduler, now)
}

} // verus!
