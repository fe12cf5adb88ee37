//! Additive mining counters. Every counter saturates at `u64::MAX` instead
//! of wrapping.
use vstd::prelude::*;

verus! {

/// `a + b`, saturated at `u64::MAX`.
pub open spec fn sat_add(a: u64, b: int) -> u64 {
    if a + b > u64::MAX {
        u64::MAX
    } else {
        (a + b) as u64
    }
}

/// Counters of one worker's mining activity.
#[derive(Clone, Copy, Debug, PartialEq, Eq, Structural)]
pub struct MiningMetrics {
    pub total_chunks_mined: u64,
    pub total_hashes_computed: u64,
    pub successful_chunks: u64,
    pub failed_chunks: u64,
    pub total_mining_time_ns: u64,
    pub fastest_chunk_ns: u64,
    pub slowest_chunk_ns: u64,
    pub total_instructions: u64,
    pub min_instructions_per_hash: u64,
    pub max_instructions_per_hash: u64,
    pub cache_hits: u64,
    pub cache_misses: u64,
    pub early_terminations: u64,
    pub chunks_abandoned: u64,
    pub adaptive_chunk_changes: u64,
    pub avg_chunk_size: u64,
    pub solutions_found: u64,
    pub last_solution_time: u64,
}

/// Derived quantities of a metrics record.
#[derive(Clone, Copy, Debug, PartialEq, Eq, Structural)]
pub struct MetricsSummary {
    pub total_chunks: u64,
    pub total_hashes: u64,
    pub solutions_found: u64,
    pub cache_hits: u64,
    pub cache_misses: u64,
    pub early_terminations: u64,
    pub avg_time_per_chunk_ms: u64,
    pub avg_hashes_per_chunk: u64,
    pub avg_instructions_per_hash: u64,
    pub hashes_per_second: u64,
}

/// Every counter of `m` is zero.
pub open spec fn all_zero(m: MiningMetrics) -> bool {
    m == MiningMetrics {
        total_chunks_mined: 0,
        total_hashes_computed: 0,
        successful_chunks: 0,
        failed_chunks: 0,
        total_mining_time_ns: 0,
        fastest_chunk_ns: 0,
        slowest_chunk_ns: 0,
        total_instructions: 0,
        min_instructions_per_hash: 0,
        max_instructions_per_hash: 0,
        cache_hits: 0,
        cache_misses: 0,
        early_terminations: 0,
        chunks_abandoned: 0,
        adaptive_chunk_changes: 0,
        avg_chunk_size: 0,
        solutions_found: 0,
        last_solution_time: 0,
    }
}

/// `m` after one chunk sample; `now` stamps a found solution.
pub open spec fn chunk_recorded(
    m: MiningMetrics,
    hashes: u64,
    time_ns: u64,
    instructions: u64,
    found_solution: bool,
    early_terminated: bool,
    now: u64,
) -> MiningMetrics {
    let per_hash = if hashes > 0 { instructions / hashes } else { 0 };
    MiningMetrics {
        total_chunks_mined: sat_add(m.total_chunks_mined, 1),
        total_hashes_computed: sat_add(m.total_hashes_computed, hashes as int),
        total_mining_time_ns: sat_add(m.total_mining_time_ns, time_ns as int),
        total_instructions: sat_add(m.total_instructions, instructions as int),
        successful_chunks: if found_solution {
            sat_add(m.successful_chunks, 1)
        } else {
            m.successful_chunks
        },
        solutions_found: if found_solution {
            sat_add(m.solutions_found, 1)
        } else {
            m.solutions_found
        },
        last_solution_time: if found_solution {
            now
        } else {
            m.last_solution_time
        },
        chunks_abandoned: if !found_solution && early_terminated {
            sat_add(m.chunks_abandoned, 1)
        } else {
            m.chunks_abandoned
        },
        early_terminations: if !found_solution && early_terminated {
            sat_add(m.early_terminations, 1)
        } else {
            m.early_terminations
        },
        failed_chunks: if !found_solution && !early_terminated {
            sat_add(m.failed_chunks, 1)
        } else {
            m.failed_chunks
        },
        fastest_chunk_ns: if m.fastest_chunk_ns == 0 || time_ns < m.fastest_chunk_ns {
            time_ns
        } else {
            m.fastest_chunk_ns
        },
        slowest_chunk_ns: if time_ns > m.slowest_chunk_ns {
            time_ns
        } else {
            m.slowest_chunk_ns
        },
        min_instructions_per_hash: if hashes > 0 && (m.min_instructions_per_hash == 0
            || per_hash < m.min_instructions_per_hash) {
            per_hash
        } else {
            m.min_instructions_per_hash
        },
        max_instructions_per_hash: if hashes > 0 && per_hash > m.max_instructions_per_hash {
            per_hash
        } else {
            m.max_instructions_per_hash
        },
        ..m
    }
}

/// `m` after the chunk size changed to `new_chunk_size`: the running
/// average halves the distance to the new size.
pub open spec fn adaptive_change_recorded(m: MiningMetrics, new_chunk_size: u64) -> MiningMetrics {
    MiningMetrics {
        adaptive_chunk_changes: sat_add(m.adaptive_chunk_changes, 1),
        avg_chunk_size: if m.avg_chunk_size == 0 {
            new_chunk_size
        } else {
            ((m.avg_chunk_size + new_chunk_size) / 2) as u64
        },
        ..m
    }
}

/// `a / b`, zero when `b` is zero.
pub open spec fn ratio_or_zero(a: u64, b: u64) -> u64 {
    if b > 0 {
        a / b
    } else {
        0
    }
}

/// Hashes per second over `time_ns` nanoseconds, saturated at `u64::MAX`.
pub open spec fn hash_rate(hashes: u64, time_ns: u64) -> u64 {
    let rate = (hashes as int * 1_000_000_000) / (time_ns as int);
    if rate > u64::MAX {
        u64::MAX
    } else {
        rate as u64
    }
}

/// The derived figures of `m`.
pub open spec fn summary_of(m: MiningMetrics) -> MetricsSummary {
    MetricsSummary {
        total_chunks: m.total_chunks_mined,
        total_hashes: m.total_hashes_computed,
        solutions_found: m.solutions_found,
        cache_hits: m.cache_hits,
        cache_misses: m.cache_misses,
        early_terminations: m.early_terminations,
        avg_time_per_chunk_ms: ratio_or_zero(m.total_mining_time_ns, m.total_chunks_mined)
            / 1_000_000,
        avg_hashes_per_chunk: ratio_or_zero(m.total_hashes_computed, m.total_chunks_mined),
        avg_instructions_per_hash: ratio_or_zero(m.total_instructions, m.total_hashes_computed),
        hashes_per_second: if m.total_mining_time_ns > 0 {
            hash_rate(m.total_hashes_computed, m.total_mining_time_ns)
        } else {
            0
        },
    }
}

fn div_or_zero(a: u64, b: u64) -> (r: u64)
    ensures
        r == ratio_or_zero(a, b),
{
    if b > 0 {
        a / b
    } else {
        0
    }
}

impl Default for MiningMetrics {
    fn default() -> (r: Self)
        ensures
            all_zero(r),
    {
        MiningMetrics {
            total_chunks_mined: 0,
            total_hashes_computed: 0,
            successful_chunks: 0,
            failed_chunks: 0,
            total_mining_time_ns: 0,
            fastest_chunk_ns: 0,
            slowest_chunk_ns: 0,
            total_instructions: 0,
            min_instructions_per_hash: 0,
            max_instructions_per_hash: 0,
            cache_hits: 0,
            cache_misses: 0,
            early_terminations: 0,
            chunks_abandoned: 0,
            adaptive_chunk_changes: 0,
            avg_chunk_size: 0,
            solutions_found: 0,
            last_solution_time: 0,
        }
    }
}

impl MiningMetrics {
    /// Records one chunk sample. `now` is stamped as the time of the last
    /// solution when `found_solution` holds. A sample with no hashes leaves
    /// the per-hash instruction bounds alone.
    pub fn record_chunk(
        &mut self,
        hashes: u64,
        time_ns: u64,
        instructions: u64,
        found_solution: bool,
        early_terminated: bool,
        now: u64,
    )
        ensures
            *final(self) == chunk_recorded(
                *old(self),
                hashes,
                time_ns,
                instructions,
                found_solution,
                early_terminated,
                now,
            ),
    {
        self.total_chunks_mined = self.total_chunks_mined.saturating_add(1);
        self.total_hashes_computed = self.total_hashes_computed.saturating_add(hashes);
        self.total_mining_time_ns = self.total_mining_time_ns.saturating_add(time_ns);
        self.total_instructions = self.total_instructions.saturating_add(instructions);
        if found_solution {
            self.successful_chunks = self.successful_chunks.saturating_add(1);
            self.solutions_found = self.solutions_found.saturating_add(1);
            self.last_solution_time = now;
        } else if early_terminated {
            self.chunks_abandoned = self.chunks_abandoned.saturating_add(1);
            self.early_terminations = self.early_terminations.saturating_add(1);
        } else {
            self.failed_chunks = self.failed_chunks.saturating_add(1);
        }
        if self.fastest_chunk_ns == 0 || time_ns < self.fastest_chunk_ns {
            self.fastest_chunk_ns = time_ns;
        }
        if time_ns > self.slowest_chunk_ns {
            self.slowest_chunk_ns = time_ns;
        }
        if hashes > 0 {
            let instr_per_hash = instructions / hashes;
            if self.min_instructions_per_hash == 0 || instr_per_hash
                < self.min_instructions_per_hash {
                self.min_instructions_per_hash = instr_per_hash;
            }
            if instr_per_hash > self.max_instructions_per_hash {
                self.max_instructions_per_hash = instr_per_hash;
            }
        }
    }

    pub fn record_cache_hit(&mut self)
        ensures
            *final(self) == (MiningMetrics {
                cache_hits: sat_add(old(self).cache_hits, 1),
                ..*old(self)
            }),
    {
        self.cache_hits = self.cache_hits.saturating_add(1);
    }

    pub fn record_cache_miss(&mut self)
        ensures
            *final(self) == (MiningMetrics {
                cache_misses: sat_add(old(self).cache_misses, 1),
                ..*old(self)
            }),
    {
        self.cache_misses = self.cache_misses.saturating_add(1);
    }

    pub fn record_adaptive_change(&mut self, new_chunk_size: u64)
        ensures
            *final(self) == adaptive_change_recorded(*old(self), new_chunk_size),
    {
        self.adaptive_chunk_changes = self.adaptive_chunk_changes.saturating_add(1);
        if self.avg_chunk_size == 0 {
            self.avg_chunk_size = new_chunk_size;
        } else {
            self.avg_chunk_size = ((self.avg_chunk_size as u128 + new_chunk_size as u128)
                / 2) as u64;
        }
    }

    /// Derived averages and rates, each zero when its denominator is zero.
    /// Hashes per second saturate at `u64::MAX`.
    pub fn summary(&self) -> (r: MetricsSummary)
        ensures
            r == summary_of(*self),
    {
        let avg_time_per_chunk = div_or_zero(self.total_mining_time_ns, self.total_chunks_mined);
        let hashes_per_second: u64 = if self.total_mining_time_ns > 0 {
            let h = self.total_hashes_computed as u128;
            assert(h * 1_000_000_000 <= u64::MAX as int * 1_000_000_000) by (nonlinear_arith)
                requires h <= u64::MAX;
            let per_second = h * 1_000_000_000 / self.total_mining_time_ns as u128;
            if per_second > u64::MAX as u128 {
                u64::MAX
            } else {
                per_second as u64
            }
        } else {
            0
        };
        MetricsSummary {
            total_chunks: self.total_chunks_mined,
            total_hashes: self.total_hashes_computed,
            solutions_found: self.solutions_found,
            cache_hits: self.cache_hits,
            cache_misses: self.cache_misses,
            early_terminations: self.early_terminations,
            avg_time_per_chunk_ms: avg_time_per_chunk / 1_000_000,
            avg_hashes_per_chunk: div_or_zero(self.total_hashes_computed, self.total_chunks_mined),
            avg_instructions_per_hash: div_or_zero(
                self.total_instructions,
                self.total_hashes_computed,
            ),
            hashes_per_second,
        }
    }

    /// Returns every counter to zero.
    pub fn reset(&mut self)
        ensures
            all_zero(*final(self)),
    {
        *self = MiningMetrics::default();
    }
}

/// Records one chunk sample into `metrics`.
pub fn record_chunk_result(
    metrics: &mut MiningMetrics,
    hashes: u64,
    time_ns: u64,
    instructions: u64,
    found_solution: bool,
    early_terminated: bool,
    now: u64,
)
    ensures
        *final(metrics) == chunk_recorded(
            *old(metrics),
            hashes,
            time_ns,
            instructions,
            found_solution,
            early_terminated,
            now,
        ),
{
    metrics.record_chunk(hashes, time_ns, instructions, found_solution, early_terminated, now);
}

/// Counts one cache hit in `metrics`.
pub fn record_cache_hit(metrics: &mut MiningMetrics)
    ensures
        *final(metrics) == (MiningMetrics { cache_hits: sat_add(old(metrics).cache_hits, 1), ..*old(metrics) }),
{
    metrics.record_cache_hit();
}

/// Counts one cache miss in `metrics`.
pub fn record_cache_miss(metrics: &mut MiningMetrics)
    ensures
        *final(metrics) == (MiningMetrics { cache_misses: sat_add(old(metrics).cache_misses, 1), ..*old(metrics) }),
{
    metrics.record_cache_miss();
}

/// Counts one chunk-size change in `metrics`.
pub fn record_adaptive_change(metrics: &mut MiningMetrics, new_chunk_size: u64)
    ensures
        *final(metrics) == adaptive_change_recorded(*old(metrics), new_chunk_size),
{
    metrics.record_adaptive_change(new_chunk_size);
}

} // verus!
