//! A worker node: its streaming search task, solution cache and metrics,
//! with the per-tick search step, adaptive chunk sizing and statistical
//! early termination.
use vstd::prelude::*;
use vstd::arithmetic::power2::{pow2, lemma2_to64, lemma_pow2_strictly_increases};
use vstd::bits::{lemma_u64_shl_is_mul, lemma_u64_pow2_no_overflow};
use crate::cache::{
    cache_lookup, cache_store, fresh_entry, keys_of, looks_up, stores, CacheEntry, CacheStats,
    LRUCache,
};
use crate::metrics::{
    adaptive_change_recorded, all_zero, chunk_recorded, record_adaptive_change,
    record_cache_hit, record_cache_miss, record_chunk_result, sat_add, summary_of, MetricsSummary,
    MiningMetrics,
};
use crate::miner::{chunk_result, mine_chunk_with_midstate, MiningStatus};

verus! {

/// Chunk size before scaling.
pub const BASE_CHUNK: u64 = 200_000;

/// The smallest chunk handed to a tick.
pub const MIN_CHUNK: u64 = 20_000;

/// The largest chunk handed to a tick.
pub const MAX_CHUNK: u64 = 2_000_000;

/// Budget units that raise the chunk size by one step.
pub const BUDGET_STEP: u64 = 100_000_000_000;

/// A worker's streaming search.
#[derive(Clone, Debug, PartialEq, Eq)]
pub struct AdvancedTask {
    pub running: bool,
    pub block_data: String,
    pub difficulty: u32,
    pub next_nonce: u64,
    pub chunk_size: u64,
    pub total_attempts: u64,
    pub started_at: u64,
}

/// The state of one worker: at most one task, the solution cache and the
/// metrics.
pub struct MinerNode {
    pub task: Option<AdvancedTask>,
    pub cache: LRUCache,
    pub metrics: MiningMetrics,
}

/// The host's clock and instruction counter, read around each chunk.
pub trait WorkMeter {
    fn time_ns(&mut self) -> u64;

    fn instruction_count(&mut self) -> u64;
}

/// `x` clamped into `[lo, hi]`.
pub open spec fn clamp(x: int, lo: int, hi: int) -> int {
    if x < lo {
        lo
    } else if x > hi {
        hi
    } else {
        x
    }
}

/// Easier targets get larger chunks: `2^(24 - d)` below 24, else 1.
pub open spec fn difficulty_factor(difficulty: u32) -> int {
    if difficulty < 24 {
        pow2((24 - difficulty) as nat) as int
    } else {
        1
    }
}

/// A larger budget gets larger chunks: one step per `BUDGET_STEP`, from 1 to 5.
pub open spec fn budget_factor(budget: u64) -> int {
    clamp((budget / BUDGET_STEP) as int, 1, 5)
}

/// The chunk size for a difficulty and a budget.
pub open spec fn adaptive_size(difficulty: u32, budget: u64) -> int {
    clamp(
        BASE_CHUNK * difficulty_factor(difficulty) * budget_factor(budget),
        MIN_CHUNK as int,
        MAX_CHUNK as int,
    )
}

/// The expected number of attempts at a difficulty: `2^d` below 64, else
/// `u64::MAX`.
pub open spec fn expected_attempts(difficulty: u32) -> int {
    if difficulty >= 64 {
        u64::MAX as int
    } else {
        pow2(difficulty as nat) as int
    }
}

/// `a * b`, saturated at `u64::MAX`.
fn saturating_product(a: u64, b: u64) -> (r: u64)
    ensures
        r == (if a * b > u64::MAX { u64::MAX as int } else { a * b }),
{
    assert((a as u128) * (b as u128) <= u64::MAX as int * u64::MAX as int) by (nonlinear_arith)
        requires a <= u64::MAX, b <= u64::MAX;
    let p = (a as u128) * (b as u128);
    if p > u64::MAX as u128 {
        u64::MAX
    } else {
        p as u64
    }
}

/// The chunk size for `difficulty` given the compute budget `budget`.
pub fn adaptive_chunk_size(difficulty: u32, budget: u64) -> (r: u64)
    ensures
        r == adaptive_size(difficulty, budget),
{
    let diff_factor: u64 = if difficulty < 24 {
        let shift = (24 - difficulty) as u64;
        proof {
            lemma_u64_pow2_no_overflow(shift as nat);
            lemma_u64_shl_is_mul(1, shift);
        }
        1u64 << shift
    } else {
        1
    };
    proof {
        lemma2_to64();
        if difficulty < 24 && difficulty > 0 {
            lemma_pow2_strictly_increases((24 - difficulty) as nat, 24);
        }
    }
    let steps = budget / BUDGET_STEP;
    let budget_factor: u64 = if steps < 1 {
        1
    } else if steps > 5 {
        5
    } else {
        steps
    };
    assert(BASE_CHUNK * diff_factor * budget_factor <= 200_000 * 16777216 * 5) by (nonlinear_arith)
        requires diff_factor <= 16777216, budget_factor <= 5;
    let mut size = saturating_product(saturating_product(BASE_CHUNK, diff_factor), budget_factor);
    if size < MIN_CHUNK {
        size = MIN_CHUNK;
    }
    if size > MAX_CHUNK {
        size = MAX_CHUNK;
    }
    size
}

/// `2^difficulty`, or `u64::MAX` from difficulty 64 on.
pub fn expected_attempts_for_difficulty(difficulty: u32) -> (r: u64)
    ensures
        r == expected_attempts(difficulty),
{
    if difficulty >= 64 {
        u64::MAX
    } else {
        proof {
            lemma_u64_pow2_no_overflow(difficulty as nat);
            lemma_u64_shl_is_mul(1, difficulty as u64);
        }
        1u64 << (difficulty as u64)
    }
}

/// A search goes on while it has tried at most three times the expected
/// number of attempts.
pub fn should_continue_mining(attempts_so_far: u64, difficulty: u32) -> (r: bool)
    ensures
        r == (attempts_so_far <= 3 * expected_attempts(difficulty)),
{
    let expected = expected_attempts_for_difficulty(difficulty);
    attempts_so_far <= saturating_product(expected, 3)
}

/// `task` with its search stopped; no task stays no task.
pub open spec fn stopped(task: Option<AdvancedTask>) -> Option<AdvancedTask> {
    match task {
        Some(t) => Some(AdvancedTask { running: false, ..t }),
        None => None,
    }
}

/// Stopping a stopped search changes nothing.
pub proof fn lemma_stop_idempotent(task: Option<AdvancedTask>)
    ensures
        stopped(stopped(task)) == stopped(task),
{
}

/// What one tick of a running task leads to, for a chunk search that gave
/// `status` after `attempts` tries and a sample taken at time `now` with the
/// measured `time_ns` and `instructions`.
pub open spec fn tick_outcome(
    old: MinerNode,
    new: MinerNode,
    budget: u64,
    status: MiningStatus,
    attempts: u64,
    time_ns: u64,
    instructions: u64,
    now: u64,
) -> bool {
    let t = old.task->Some_0;
    let chunk = adaptive_size(t.difficulty, budget) as u64;
    let total = sat_add(t.total_attempts, attempts as int);
    let terminated = total > 3 * expected_attempts(t.difficulty);
    let found = !terminated && status is Found;
    let adapted = if chunk != t.chunk_size {
        adaptive_change_recorded(old.metrics, chunk)
    } else {
        old.metrics
    };
    &&& chunk_result(t.block_data@, t.difficulty, t.next_nonce, chunk, status, attempts)
    &&& new.metrics == chunk_recorded(adapted, attempts, time_ns, instructions, found, terminated, now)
    &&& new.task == Some(
        AdvancedTask {
            running: !terminated && status is Continue,
            next_nonce: match status {
                MiningStatus::Continue { next_nonce } if !terminated => next_nonce,
                _ => t.next_nonce,
            },
            chunk_size: chunk,
            total_attempts: total,
            ..t
        },
    )
    &&& match status {
        MiningStatus::Found { hash, nonce } if found => stores(
            old.cache@,
            new.cache@,
            (t.block_data@, t.difficulty),
            fresh_entry(nonce, hash, t.difficulty, now),
        ),
        _ => new.cache@ == old.cache@,
    }
}

fn copy_task(t: &AdvancedTask) -> (r: AdvancedTask)
    ensures
        r == *t,
{
    AdvancedTask {
        running: t.running,
        block_data: t.block_data.clone(),
        difficulty: t.difficulty,
        next_nonce: t.next_nonce,
        chunk_size: t.chunk_size,
        total_attempts: t.total_attempts,
        started_at: t.started_at,
    }
}

impl MinerNode {
    /// The cache is well formed.
    pub open spec fn wf(&self) -> bool {
        self.cache.wf()
    }

    /// A node with no task, an empty cache and zeroed metrics.
    pub fn new() -> (r: Self)
        ensures
            r.wf(),
            r.task is None,
            r.cache@.len() == 0,
            all_zero(r.metrics),
    {
        MinerNode { task: None, cache: LRUCache::new(), metrics: MiningMetrics::default() }
    }
}

/// Starts a streaming search for `block_data` at `difficulty` from
/// `start_nonce`, unless the cache already holds its solution: a hit is
/// counted (in the cache and the metrics) and no task is created; a miss is
/// counted and the new task replaces any old one.
pub fn start_advanced_mining(
    node: &mut MinerNode,
    block_data: String,
    difficulty: u32,
    start_nonce: u64,
    chunk_size: u64,
    now: u64,
)
    requires
        old(node).wf(),
    ensures
        final(node).wf(),
        keys_of(old(node).cache@).contains((block_data@, difficulty)) ==> {
            &&& final(node).task == old(node).task
            &&& final(node).metrics == (MiningMetrics {
                cache_hits: sat_add(old(node).metrics.cache_hits, 1),
                ..old(node).metrics
            })
            &&& exists|e: Option<CacheEntry>|
                looks_up(old(node).cache@, final(node).cache@, (block_data@, difficulty), now, e)
        },
        !keys_of(old(node).cache@).contains((block_data@, difficulty)) ==> {
            &&& final(node).task == Some(
                AdvancedTask {
                    running: true,
                    block_data,
                    difficulty,
                    next_nonce: start_nonce,
                    chunk_size,
                    total_attempts: 0,
                    started_at: now,
                },
            )
            &&& final(node).metrics == (MiningMetrics {
                cache_misses: sat_add(old(node).metrics.cache_misses, 1),
                ..old(node).metrics
            })
            &&& final(node).cache@ == old(node).cache@
        },
{
    match cache_lookup(&mut node.cache, block_data.as_str(), difficulty, now) {
        Some(_) => {
            record_cache_hit(&mut node.metrics);
        },
        None => {
            record_cache_miss(&mut node.metrics);
            node.task = Some(
                AdvancedTask {
                    running: true,
                    block_data,
                    difficulty,
                    next_nonce: start_nonce,
                    chunk_size,
                    total_attempts: 0,
                    started_at: now,
                },
            );
        },
    }
}

/// Stops the streaming search, if there is one; the task stays readable.
pub fn stop_advanced_mining(node: &mut MinerNode)
    ensures
        final(node).task == stopped(old(node).task),
        final(node).cache == old(node).cache,
        final(node).metrics == old(node).metrics,
{
    if let Some(task) = &mut node.task {
        task.running = false;
    }
}

/// The current task, if any.
pub fn get_advanced_status(node: &MinerNode) -> (r: Option<AdvancedTask>)
    ensures
        r == node.task,
{
    match &node.task {
        Some(t) => Some(copy_task(t)),
        None => None,
    }
}

/// One scheduling pulse of the streaming search. A missing or stopped task
/// is left alone. Otherwise the chunk size is re-derived from the difficulty
/// and `budget`, one chunk is searched from `next_nonce`, and the sample is
/// recorded with the time and instructions measured around the search. The
/// task stops without a solution once its total attempts exceed three times
/// the expected number; a solution is cached and stops the task; a miss
/// moves the task on to the end of the chunk.
pub fn advanced_heartbeat<M: WorkMeter>(node: &mut MinerNode, budget: u64, meter: &mut M)
    requires
        old(node).wf(),
    ensures
        final(node).wf(),
        match old(node).task {
            Some(t) if t.running => exists|
                status: MiningStatus,
                attempts: u64,
                time_ns: u64,
                instructions: u64,
                now: u64,
            |
                tick_outcome(
                    *old(node),
                    *final(node),
                    budget,
                    status,
                    attempts,
                    time_ns,
                    instructions,
                    now,
                ),
            _ => final(node).task == old(node).task && final(node).cache@ == old(node).cache@
                && final(node).metrics == old(node).metrics,
        },
{
    let mut task = match node.task.take() {
        Some(t) => t,
        None => return ,
    };
    if !task.running {
        node.task = Some(task);
        return ;
    }
    let ghost start_node = *old(node);
    let chunk = adaptive_chunk_size(task.difficulty, budget);
    if chunk != task.chunk_size {
        record_adaptive_change(&mut node.metrics, chunk);
        task.chunk_size = chunk;
    }
    let time_start = meter.time_ns();
    let instr_start = meter.instruction_count();
    let (status, attempts) = mine_chunk_with_midstate(
        task.block_data.clone(),
        task.difficulty,
        task.next_nonce,
        chunk,
    );
    let time_end = meter.time_ns();
    let instr_end = meter.instruction_count();
    let time_ns = time_end.saturating_sub(time_start);
    let instructions = instr_end.saturating_sub(instr_start);
    task.total_attempts = task.total_attempts.saturating_add(attempts);
    if !should_continue_mining(task.total_attempts, task.difficulty) {
        record_chunk_result(&mut node.metrics, attempts, time_ns, instructions, false, true, time_end);
        task.running = false;
        node.task = Some(task);
        assert(tick_outcome(start_node, *node, budget, status, attempts, time_ns, instructions, time_end));
        return ;
    }
    match status {
        MiningStatus::Found { nonce, hash } => {
            cache_store(
                &mut node.cache,
                task.block_data.clone(),
                task.difficulty,
                nonce,
                hash,
                time_end,
            );
            record_chunk_result(&mut node.metrics, attempts, time_ns, instructions, true, false, time_end);
            task.running = false;
            node.task = Some(task);
            assert(tick_outcome(start_node, *node, budget, status, attempts, time_ns, instructions, time_end));
        },
        MiningStatus::Continue { next_nonce } => {
            record_chunk_result(&mut node.metrics, attempts, time_ns, instructions, false, false, time_end);
            task.next_nonce = next_nonce;
            node.task = Some(task);
            assert(tick_outcome(start_node, *node, budget, status, attempts, time_ns, instructions, time_end));
        },
    }
}

/// Size and hit statistics of the node's cache.
pub fn get_cache_stats(node: &MinerNode) -> (r: CacheStats)
    ensures
        r.size == node.cache@.len(),
        r.capacity == crate::cache::MAX_CACHE_SIZE,
        r.total_hits == node.cache.total_hits(),
{
    node.cache.stats()
}

/// Empties the node's cache.
pub fn clear_cache(node: &mut MinerNode)
    ensures
        final(node).wf(),
        final(node).cache@.len() == 0,
        final(node).cache.total_hits() == 0,
        final(node).task == old(node).task,
        final(node).metrics == old(node).metrics,
{
    node.cache.clear();
}

/// Whether the cache holds a solution for `(block_data, difficulty)`; like
/// any lookup, a hit is counted in the cache.
pub fn is_cached(node: &mut MinerNode, block_data: String, difficulty: u32, now: u64) -> (r: bool)
    requires
        old(node).wf(),
    ensures
        final(node).wf(),
        r == keys_of(old(node).cache@).contains((block_data@, difficulty)),
        exists|e: Option<CacheEntry>|
            looks_up(old(node).cache@, final(node).cache@, (block_data@, difficulty), now, e),
        final(node).task == old(node).task,
        final(node).metrics == old(node).metrics,
{
    let found = node.cache.get(block_data.as_str(), difficulty, now);
    assert(looks_up(old(node).cache@, node.cache@, (block_data@, difficulty), now, found));
    found.is_some()
}

/// The node's metrics.
pub fn get_metrics(node: &MinerNode) -> (r: MiningMetrics)
    ensures
        r == node.metrics,
{
    node.metrics
}

/// Derived figures of the node's metrics.
pub fn get_metrics_summary(node: &MinerNode) -> (r: MetricsSummary)
    ensures
        r == summary_of(node.metrics),
{
    node.metrics.summary()
}

/// Returns every counter of the node's metrics to zero.
pub fn reset_metrics(node: &mut MinerNode)
    ensures
        all_zero(final(node).metrics),
        final(node).task == old(node).task,
        final(node).cache == old(node).cache,
{
    node.metrics.reset();
}

} // verus!
