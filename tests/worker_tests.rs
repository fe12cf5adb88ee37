use pow_mining::cache::{cache_lookup, cache_store, CacheEntry, LRUCache, MAX_CACHE_SIZE};
use pow_mining::metrics::{
    record_adaptive_change, record_cache_hit, record_cache_miss, record_chunk_result,
    MiningMetrics,
};
use pow_mining::worker::{
    adaptive_chunk_size, advanced_heartbeat, clear_cache, expected_attempts_for_difficulty,
    get_advanced_status, get_cache_stats, get_metrics, get_metrics_summary, is_cached,
    reset_metrics, should_continue_mining, start_advanced_mining, stop_advanced_mining,
    MinerNode, WorkMeter,
};

struct StepMeter {
    time: u64,
    instructions: u64,
}

impl WorkMeter for StepMeter {
    fn time_ns(&mut self) -> u64 {
        self.time += 1_000;
        self.time
    }

    fn instruction_count(&mut self) -> u64 {
        self.instructions += 500_000;
        self.instructions
    }
}

#[test]
fn adaptive_chunk_size_formula() {
    assert_eq!(adaptive_chunk_size(0, 0), 2_000_000);
    assert_eq!(adaptive_chunk_size(24, 0), 200_000);
    assert_eq!(adaptive_chunk_size(40, 0), 200_000);
    assert_eq!(adaptive_chunk_size(23, 0), 400_000);
    assert_eq!(adaptive_chunk_size(23, 200_000_000_000), 800_000);
    assert_eq!(adaptive_chunk_size(24, 300_000_000_000), 600_000);
    assert_eq!(adaptive_chunk_size(24, 900_000_000_000), 1_000_000);
    assert_eq!(adaptive_chunk_size(23, u64::MAX), 2_000_000);
}

#[test]
fn expected_attempts_and_early_termination() {
    assert_eq!(expected_attempts_for_difficulty(0), 1);
    assert_eq!(expected_attempts_for_difficulty(10), 1024);
    assert_eq!(expected_attempts_for_difficulty(63), 1u64 << 63);
    assert_eq!(expected_attempts_for_difficulty(64), u64::MAX);
    assert!(should_continue_mining(3072, 10));
    assert!(!should_continue_mining(3073, 10));
    assert!(should_continue_mining(u64::MAX, 63));
    assert!(should_continue_mining(u64::MAX, 64));
}

#[test]
fn metrics_record_chunk_and_counters() {
    let mut m = MiningMetrics::default();
    record_chunk_result(&mut m, 100, 5_000, 1_000_000, false, false, 9);
    assert_eq!(m.total_chunks_mined, 1);
    assert_eq!(m.total_hashes_computed, 100);
    assert_eq!(m.failed_chunks, 1);
    assert_eq!(m.fastest_chunk_ns, 5_000);
    assert_eq!(m.slowest_chunk_ns, 5_000);
    assert_eq!(m.min_instructions_per_hash, 10_000);
    assert_eq!(m.max_instructions_per_hash, 10_000);
    record_chunk_result(&mut m, 10, 2_000, 500_000, true, false, 77);
    assert_eq!(m.successful_chunks, 1);
    assert_eq!(m.solutions_found, 1);
    assert_eq!(m.last_solution_time, 77);
    assert_eq!(m.fastest_chunk_ns, 2_000);
    assert_eq!(m.max_instructions_per_hash, 50_000);
    record_chunk_result(&mut m, 0, 9_000, 123, false, true, 80);
    assert_eq!(m.early_terminations, 1);
    assert_eq!(m.chunks_abandoned, 1);
    assert_eq!(m.slowest_chunk_ns, 9_000);
    assert_eq!(m.min_instructions_per_hash, 10_000);
    assert_eq!(m.max_instructions_per_hash, 50_000);
    record_cache_hit(&mut m);
    record_cache_miss(&mut m);
    record_cache_miss(&mut m);
    assert_eq!((m.cache_hits, m.cache_misses), (1, 2));
    record_adaptive_change(&mut m, 1_000);
    record_adaptive_change(&mut m, 2_001);
    assert_eq!(m.adaptive_chunk_changes, 2);
    assert_eq!(m.avg_chunk_size, 1_500);
    let s = m.summary();
    assert_eq!(s.total_chunks, 3);
    assert_eq!(s.total_hashes, 110);
    assert_eq!(s.avg_hashes_per_chunk, 36);
    assert_eq!(s.avg_instructions_per_hash, 1_500_123 / 110);
    assert_eq!(s.hashes_per_second, 110 * 1_000_000_000 / 16_000);
    assert_eq!(s.avg_time_per_chunk_ms, 0);
}

#[test]
fn metrics_counters_saturate() {
    let mut m = MiningMetrics::default();
    m.cache_hits = u64::MAX;
    m.record_cache_hit();
    assert_eq!(m.cache_hits, u64::MAX);
    m.record_adaptive_change(u64::MAX);
    m.record_adaptive_change(u64::MAX);
    assert_eq!(m.avg_chunk_size, u64::MAX);
}

#[test]
fn reset_metrics_zeroes_everything() {
    let mut node = MinerNode::new();
    node.metrics.record_chunk(5, 6, 7, true, false, 8);
    node.metrics.record_cache_hit();
    reset_metrics(&mut node);
    assert_eq!(get_metrics(&node), MiningMetrics::default());
    assert_eq!(get_metrics_summary(&node).total_chunks, 0);
}

fn entry_key(e: &Option<CacheEntry>) -> Option<(u64, String, u64, u64)> {
    e.as_ref().map(|e| (e.nonce, e.hash.clone(), e.hits, e.last_accessed))
}

#[test]
fn cache_get_counts_hits_and_moves_to_end() {
    let mut c = LRUCache::new();
    c.insert("a".to_string(), 1, 10, "ha".to_string(), 100);
    c.insert("b".to_string(), 1, 20, "hb".to_string(), 200);
    assert_eq!(entry_key(&c.get("a", 2, 300)), None);
    assert_eq!(entry_key(&c.get("a", 1, 300)), Some((10, "ha".to_string(), 1, 300)));
    assert_eq!(entry_key(&c.get("a", 1, 400)), Some((10, "ha".to_string(), 2, 400)));
    assert_eq!(c.stats().total_hits, 2);
    assert_eq!(cache_lookup(&mut c, "b", 1, 500), Some((20, "hb".to_string())));
    assert_eq!(c.stats().size, 2);
    assert_eq!(c.stats().total_hits, 3);
}

#[test]
fn cache_evicts_least_recently_used() {
    let mut c = LRUCache::new();
    for i in 0..MAX_CACHE_SIZE {
        cache_store(&mut c, format!("block{}", i), 4, i as u64, format!("h{}", i), i as u64);
    }
    assert_eq!(c.stats().size, MAX_CACHE_SIZE);
    // touching block0 makes block1 the least recently used
    assert!(c.get("block0", 4, 5_000).is_some());
    cache_store(&mut c, "new".to_string(), 4, 1, "hn".to_string(), 6_000);
    assert_eq!(c.stats().size, MAX_CACHE_SIZE);
    assert!(c.get("block1", 4, 7_000).is_none());
    assert!(c.get("block0", 4, 7_000).is_some());
    assert!(c.get("new", 4, 7_000).is_some());
}

#[test]
fn cache_reinsert_replaces_entry() {
    let mut c = LRUCache::new();
    c.insert("a".to_string(), 1, 10, "old".to_string(), 1);
    c.get("a", 1, 2);
    c.insert("a".to_string(), 1, 11, "new".to_string(), 3);
    assert_eq!(c.stats().size, 1);
    assert_eq!(c.stats().total_hits, 0);
    assert_eq!(entry_key(&c.get("a", 1, 4)), Some((11, "new".to_string(), 1, 4)));
}

#[test]
fn clear_cache_empties_stats() {
    let mut node = MinerNode::new();
    node.cache.insert("a".to_string(), 1, 10, "h".to_string(), 1);
    node.cache.get("a", 1, 2);
    assert_eq!(get_cache_stats(&node).total_hits, 1);
    clear_cache(&mut node);
    let s = get_cache_stats(&node);
    assert_eq!(s.size, 0);
    assert_eq!(s.total_hits, 0);
    assert_eq!(s.capacity, 1000);
}

#[test]
fn start_with_cached_block_creates_no_task() {
    let mut node = MinerNode::new();
    node.cache.insert("blk".to_string(), 3, 5, "h".to_string(), 1);
    start_advanced_mining(&mut node, "blk".to_string(), 3, 0, 100, 10);
    assert!(get_advanced_status(&node).is_none());
    assert_eq!(node.metrics.cache_hits, 1);
    assert!(is_cached(&mut node, "blk".to_string(), 3, 11));
    assert!(!is_cached(&mut node, "blk".to_string(), 4, 12));
}

#[test]
fn start_without_cache_creates_running_task() {
    let mut node = MinerNode::new();
    start_advanced_mining(&mut node, "blk".to_string(), 3, 40, 100, 10);
    let t = get_advanced_status(&node).expect("a task");
    assert!(t.running);
    assert_eq!((t.next_nonce, t.chunk_size, t.total_attempts, t.started_at), (40, 100, 0, 10));
    assert_eq!(node.metrics.cache_misses, 1);
}

#[test]
fn stop_is_idempotent() {
    let mut node = MinerNode::new();
    stop_advanced_mining(&mut node);
    assert!(node.task.is_none());
    start_advanced_mining(&mut node, "blk".to_string(), 3, 0, 100, 10);
    stop_advanced_mining(&mut node);
    let once = get_advanced_status(&node);
    stop_advanced_mining(&mut node);
    assert_eq!(get_advanced_status(&node), once);
    assert!(!once.unwrap().running);
}

#[test]
fn heartbeat_finds_and_caches_solution() {
    let mut node = MinerNode::new();
    start_advanced_mining(&mut node, "easy".to_string(), 0, 9, 100, 1);
    let mut meter = StepMeter { time: 1_000, instructions: 0 };
    advanced_heartbeat(&mut node, 0, &mut meter);
    let t = get_advanced_status(&node).unwrap();
    assert!(!t.running);
    assert_eq!(t.total_attempts, 1);
    assert_eq!(t.chunk_size, 2_000_000);
    assert_eq!(node.metrics.adaptive_chunk_changes, 1);
    assert_eq!(node.metrics.solutions_found, 1);
    assert_eq!(node.metrics.total_mining_time_ns, 1_000);
    assert_eq!(node.metrics.total_instructions, 500_000);
    assert_eq!(cache_lookup(&mut node.cache, "easy", 0, 10_000).map(|c| c.0), Some(9));
    // a stopped task is left alone
    let before = get_advanced_status(&node);
    advanced_heartbeat(&mut node, 0, &mut meter);
    assert_eq!(get_advanced_status(&node), before);
}

#[test]
fn heartbeat_terminates_hopeless_search() {
    let mut node = MinerNode::new();
    start_advanced_mining(&mut node, "hard".to_string(), 1, 0, 100, 1);
    node.task.as_mut().unwrap().total_attempts = 100;
    let mut meter = StepMeter { time: 0, instructions: 0 };
    advanced_heartbeat(&mut node, 0, &mut meter);
    let t = get_advanced_status(&node).unwrap();
    assert!(!t.running);
    assert_eq!(node.metrics.early_terminations, 1);
    assert_eq!(node.metrics.solutions_found, 0);
    assert_eq!(get_cache_stats(&node).size, 0);
}

#[test]
fn heartbeat_without_task_does_nothing() {
    let mut node = MinerNode::new();
    let mut meter = StepMeter { time: 0, instructions: 0 };
    advanced_heartbeat(&mut node, 0, &mut meter);
    assert!(node.task.is_none());
    assert_eq!(node.metrics, MiningMetrics::default());
}
