//! Proof-of-work verification of blocks and chain segments, and the
//! difficulty adjustment.
use vstd::prelude::*;
use candid::Principal;
use crate::hashing::{
    block_hash, bytes_meet_difficulty, has_zero_prefix, hash_block, hash_to_hex, hex_bytes,
    hex_decode, hex_text, is_hex_text, meets_difficulty,
};

verus! {

/// How far in the future a block's timestamp may lie, in nanoseconds.
pub const MAX_FUTURE_NS: u64 = 3_600_000_000_000;

/// The largest difficulty change per adjustment.
pub const MAX_ADJUSTMENT: u32 = 2;

/// A mined block.
#[derive(Debug)]
pub struct Block {
    pub height: u64,
    pub prev_hash: String,
    pub block_data: String,
    pub nonce: u64,
    pub difficulty: u32,
    pub hash: String,
    pub timestamp: u64,
    pub miner: Option<Principal>,
}

/// Why a block or segment was rejected.
#[derive(Clone, Debug, PartialEq, Eq)]
pub enum Rejection {
    /// The recomputed hash does not meet the difficulty.
    PowNotMet { difficulty: u32, hash: String },
    /// The block's hash is not the hash of its contents.
    HashMismatch { expected: String, computed: String },
    /// The block's hash does not meet the block's difficulty.
    DifficultyNotMet { difficulty: u32 },
    /// The block's timestamp lies too far in the future.
    FutureTimestamp,
    /// The segment holds no block.
    EmptySegment,
    /// The block at this height does not name its predecessor's hash.
    ChainBreak { height: u64 },
    /// The block at this position does not follow its predecessor's height.
    HeightMismatch { position: usize, expected_height: u64, got: u64 },
}

/// The verdict on a block, a proof of work or a segment.
#[derive(Clone, Debug, PartialEq, Eq)]
pub struct ValidationResult {
    pub valid: bool,
    pub reason: Option<Rejection>,
}

/// Counts of a batch check, with the positions of the failures.
#[derive(Clone, Debug, PartialEq, Eq)]
pub struct BatchValidationResult {
    pub total: usize,
    pub valid: usize,
    pub invalid: usize,
    pub invalid_indices: Vec<usize>,
}

/// The block's hash field is the hex hash of its contents.
pub open spec fn hash_matches(b: Block) -> bool {
    b.hash@ == hex_text(block_hash(b.block_data@, b.nonce))
}

/// The hash of the block's contents meets the block's difficulty.
pub open spec fn work_done(b: Block) -> bool {
    has_zero_prefix(block_hash(b.block_data@, b.nonce), b.difficulty as int)
}

/// The block's timestamp is at most an hour past `now`.
pub open spec fn timely(b: Block, now: u64) -> bool {
    b.timestamp <= now + MAX_FUTURE_NS
}

/// The block passes every check.
pub open spec fn block_ok(b: Block, now: u64) -> bool {
    hash_matches(b) && work_done(b) && timely(b, now)
}

/// `reason` names the first check that `b` fails, in the order hash,
/// difficulty, timestamp.
pub open spec fn explains(reason: Rejection, b: Block, now: u64) -> bool {
    match reason {
        Rejection::HashMismatch { expected, computed } => {
            &&& !hash_matches(b)
            &&& expected@ == b.hash@
            &&& computed@ == hex_text(block_hash(b.block_data@, b.nonce))
        },
        Rejection::DifficultyNotMet { difficulty } => hash_matches(b) && !work_done(b)
            && difficulty == b.difficulty,
        Rejection::FutureTimestamp => hash_matches(b) && work_done(b) && !timely(b, now),
        _ => false,
    }
}

/// Block `i` names block `i - 1`'s hash and follows its height.
pub open spec fn linked(blocks: Seq<Block>, i: int) -> bool {
    &&& blocks[i].prev_hash@ == blocks[i - 1].hash@
    &&& blocks[i].height == blocks[i - 1].height + 1
}

/// The sum of `s`.
pub open spec fn sum_of(s: Seq<u64>) -> int
    decreases s.len(),
{
    if s.len() == 0 {
        0
    } else {
        sum_of(s.drop_last()) + s.last()
    }
}

/// The difficulty after a period whose average block time was `avg`.
pub open spec fn adjusted(current: u32, target: u64, avg: int) -> u32 {
    if avg < target / 2 {
        if current + 2 > u32::MAX { u32::MAX } else { (current + 2) as u32 }
    } else if avg < target {
        if current + 1 > u32::MAX { u32::MAX } else { (current + 1) as u32 }
    } else if avg > 2 * target {
        if current - 2 < 1 { 1 } else { (current - 2) as u32 }
    } else if avg > target {
        if current - 1 < 1 { 1 } else { (current - 1) as u32 }
    } else {
        current
    }
}

/// The positions below `n` whose proof of work fails, in order.
pub open spec fn failing_positions(items: Seq<(String, u64, u32)>, n: int) -> Seq<usize>
    decreases n,
{
    if n <= 0 {
        Seq::empty()
    } else {
        let rest = failing_positions(items, n - 1);
        let item = items[n - 1];
        if has_zero_prefix(block_hash(item.0@, item.1), item.2 as int) {
            rest
        } else {
            rest.push((n - 1) as usize)
        }
    }
}

/// Recomputes the hash of `(block_data, nonce)` and checks it against the
/// difficulty; a failure names the difficulty and the hex hash.
pub fn verify_pow(block_data: String, nonce: u64, difficulty: u32) -> (r: ValidationResult)
    ensures
        r.valid == has_zero_prefix(block_hash(block_data@, nonce), difficulty as int),
        r.valid ==> r.reason is None,
        !r.valid ==> (r.reason matches Some(Rejection::PowNotMet { difficulty: d, hash })
            && d == difficulty && hash@ == hex_text(block_hash(block_data@, nonce))),
{
    let hash = hash_block(block_data.as_str(), nonce);
    if meets_difficulty(&hash, difficulty) {
        ValidationResult { valid: true, reason: None }
    } else {
        ValidationResult {
            valid: false,
            reason: Some(Rejection::PowNotMet { difficulty, hash: hash_to_hex(&hash) }),
        }
    }
}

fn check_block(block: &Block, now: u64) -> (r: ValidationResult)
    ensures
        r.valid == block_ok(*block, now),
        r.valid ==> r.reason is None,
        !r.valid ==> (r.reason matches Some(x) && explains(x, *block, now)),
{
    let computed_hash = hash_block(block.block_data.as_str(), block.nonce);
    let computed_hash_hex = hash_to_hex(&computed_hash);
    if computed_hash_hex != block.hash {
        return ValidationResult {
            valid: false,
            reason: Some(
                Rejection::HashMismatch { expected: block.hash.clone(), computed: computed_hash_hex },
            ),
        };
    }
    if !meets_difficulty(&computed_hash, block.difficulty) {
        return ValidationResult {
            valid: false,
            reason: Some(Rejection::DifficultyNotMet { difficulty: block.difficulty }),
        };
    }
    if block.timestamp > now && block.timestamp - now > MAX_FUTURE_NS {
        return ValidationResult { valid: false, reason: Some(Rejection::FutureTimestamp) };
    }
    ValidationResult { valid: true, reason: None }
}

/// Checks, in order, that the block's hash is the hash of its contents,
/// that it meets the block's difficulty, and that the timestamp is at most
/// an hour past `now`; a failure names the first check that failed.
pub fn verify_block(block: Block, now: u64) -> (r: ValidationResult)
    ensures
        r.valid == block_ok(block, now),
        r.valid ==> r.reason is None,
        !r.valid ==> (r.reason matches Some(x) && explains(x, block, now)),
{
    check_block(&block, now)
}

/// A block whose hash is the hash of its contents, meets its difficulty and
/// is not more than an hour ahead of `now` passes verification.
pub proof fn lemma_sound_block_is_valid(b: Block, now: u64)
    requires
        b.hash@ == hex_text(block_hash(b.block_data@, b.nonce)),
        has_zero_prefix(block_hash(b.block_data@, b.nonce), b.difficulty as int),
        b.timestamp <= now + MAX_FUTURE_NS,
    ensures
        block_ok(b, now),
{
}

/// Checks a segment: it is not empty, every block passes `verify_block`, and
/// each block names its predecessor's hash and follows its height. The first
/// failing block is reported as `verify_block` reports it; otherwise the
/// first broken link, a hash break before a height mismatch.
pub fn verify_chain_segment(blocks: Vec<Block>, now: u64) -> (r: ValidationResult)
    ensures
        r.valid == (blocks@.len() > 0 && (forall|i: int|
            0 <= i < blocks@.len() ==> block_ok(#[trigger] blocks@[i], now)) && (forall|i: int|
            1 <= i < blocks@.len() ==> #[trigger] linked(blocks@, i))),
        r.valid ==> r.reason is None,
        blocks@.len() == 0 ==> r.reason == Some(Rejection::EmptySegment),
        forall|i: int|
            0 <= i < blocks@.len() && !block_ok(#[trigger] blocks@[i], now) && (forall|j: int|
                0 <= j < i ==> block_ok(#[trigger] blocks@[j], now)) ==> (r.reason matches Some(x)
                && explains(x, blocks@[i], now)),
        (forall|i: int| 0 <= i < blocks@.len() ==> block_ok(#[trigger] blocks@[i], now))
            ==> forall|i: int|
            1 <= i < blocks@.len() && !#[trigger] linked(blocks@, i) && (forall|j: int|
                1 <= j < i ==> #[trigger] linked(blocks@, j)) ==> r.reason == Some(
                if blocks@[i].prev_hash@ != blocks@[i - 1].hash@ {
                    Rejection::ChainBreak { height: blocks@[i].height }
                } else {
                    Rejection::HeightMismatch {
                        position: i as usize,
                        expected_height: if blocks@[i - 1].height == u64::MAX {
                            u64::MAX
                        } else {
                            (blocks@[i - 1].height + 1) as u64
                        },
                        got: blocks@[i].height,
                    }
                },
            ),
{
    if blocks.len() == 0 {
        return ValidationResult { valid: false, reason: Some(Rejection::EmptySegment) };
    }
    let mut i: usize = 0;
    while i < blocks.len()
        invariant
            i <= blocks@.len(),
            forall|j: int| 0 <= j < i ==> block_ok(#[trigger] blocks@[j], now),
        decreases blocks@.len() - i,
    {
        let result = check_block(&blocks[i], now);
        if !result.valid {
            return result;
        }
        i += 1;
    }
    let mut i: usize = 1;
    while i < blocks.len()
        invariant
            1 <= i <= blocks@.len(),
            forall|j: int| 0 <= j < blocks@.len() ==> block_ok(#[trigger] blocks@[j], now),
            forall|j: int| 1 <= j < i ==> #[trigger] linked(blocks@, j),
        decreases blocks@.len() - i,
    {
        let prev = &blocks[i - 1];
        let cur = &blocks[i];
        if cur.prev_hash != prev.hash {
            assert(!linked(blocks@, i as int));
            return ValidationResult {
                valid: false,
                reason: Some(Rejection::ChainBreak { height: cur.height }),
            };
        }
        if prev.height == u64::MAX || cur.height != prev.height + 1 {
            assert(!linked(blocks@, i as int));
            return ValidationResult {
                valid: false,
                reason: Some(
                    Rejection::HeightMismatch {
                        position: i,
                        expected_height: prev.height.saturating_add(1),
                        got: cur.height,
                    },
                ),
            };
        }
        i += 1;
    }
    ValidationResult { valid: true, reason: None }
}

/// The new difficulty after a period with the given block times: by the
/// average time (rounded down) against the target, two up when under half
/// the target, one up when under it, two down when over twice the target,
/// one down when over it, with a floor of 1; no times leave it unchanged.
pub fn calculate_difficulty_adjustment(
    current_difficulty: u32,
    target_block_time_seconds: u64,
    actual_block_times_seconds: Vec<u64>,
) -> (r: u32)
    ensures
        actual_block_times_seconds@.len() == 0 ==> r == current_difficulty,
        actual_block_times_seconds@.len() > 0 ==> r == adjusted(
            current_difficulty,
            target_block_time_seconds,
            sum_of(actual_block_times_seconds@) / actual_block_times_seconds@.len() as int,
        ),
{
    let n = actual_block_times_seconds.len();
    if n == 0 {
        return current_difficulty;
    }
    let mut sum: u128 = 0;
    let mut i: usize = 0;
    while i < n
        invariant
            n == actual_block_times_seconds@.len(),
            i <= n,
            sum == sum_of(actual_block_times_seconds@.take(i as int)),
            sum <= i * (u64::MAX as int),
        decreases n - i,
    {
        proof {
            assert(actual_block_times_seconds@.take(i as int + 1).drop_last()
                =~= actual_block_times_seconds@.take(i as int));
            assert(i * (u64::MAX as int) + u64::MAX as int == (i + 1) * (u64::MAX as int))
                by (nonlinear_arith);
            assert((i + 1) * (u64::MAX as int) <= usize::MAX as int * u64::MAX as int)
                by (nonlinear_arith) requires i < usize::MAX;
        }
        sum = sum + actual_block_times_seconds[i] as u128;
        i += 1;
    }
    proof {
        assert(actual_block_times_seconds@.take(n as int) =~= actual_block_times_seconds@);
        let total = sum as int;
        assert(total / (n as int) <= u64::MAX as int) by (nonlinear_arith)
            requires total <= n * (u64::MAX as int), n > 0;
    }
    let avg = sum / (n as u128);
    let target = target_block_time_seconds as u128;
    if avg < target / 2 {
        current_difficulty.saturating_add(MAX_ADJUSTMENT)
    } else if avg < target {
        current_difficulty.saturating_add(1)
    } else if avg > 2 * target {
        let lowered = current_difficulty.saturating_sub(MAX_ADJUSTMENT);
        if lowered < 1 {
            1
        } else {
            lowered
        }
    } else if avg > target {
        let lowered = current_difficulty.saturating_sub(1);
        if lowered < 1 {
            1
        } else {
            lowered
        }
    } else {
        current_difficulty
    }
}

/// Runs `verify_pow` on each `(block_data, nonce, difficulty)` and counts
/// the results, listing the failing positions in order.
pub fn batch_verify_pow(blocks: Vec<(String, u64, u32)>) -> (r: BatchValidationResult)
    ensures
        r.total == blocks@.len(),
        r.invalid_indices@ == failing_positions(blocks@, blocks@.len() as int),
        r.invalid == r.invalid_indices@.len(),
        r.valid + r.invalid == r.total,
{
    let total = blocks.len();
    let mut valid: usize = 0;
    let mut invalid: usize = 0;
    let mut invalid_indices: Vec<usize> = Vec::new();
    let mut i: usize = 0;
    while i < total
        invariant
            total == blocks@.len(),
            i <= total,
            invalid_indices@ == failing_positions(blocks@, i as int),
            invalid == invalid_indices@.len(),
            valid + invalid == i,
        decreases total - i,
    {
        let item = &blocks[i];
        let result = verify_pow(item.0.clone(), item.1, item.2);
        if result.valid {
            valid += 1;
        } else {
            invalid += 1;
            invalid_indices.push(i);
        }
        i += 1;
    }
    BatchValidationResult { total, valid, invalid, invalid_indices }
}

/// The hex hash of `(block_data, nonce)`.
pub fn compute_hash(block_data: String, nonce: u64) -> (r: String)
    ensures
        r@ == hex_text(block_hash(block_data@, nonce)),
{
    let hash = hash_block(block_data.as_str(), nonce);
    hash_to_hex(&hash)
}

/// Whether hex text of a 32-byte hash meets the difficulty; text that is
/// not hex, or not 32 bytes of it, does not.
pub fn check_difficulty_level(hash_hex: String, difficulty: u32) -> (r: bool)
    ensures
        r == (is_hex_text(hash_hex@) && hex_bytes(hash_hex@).len() == 32 && has_zero_prefix(
            hex_bytes(hash_hex@),
            difficulty as int,
        )),
{
    match hex_decode(hash_hex.as_str()) {
        Some(bytes) => {
            if bytes.len() == 32 {
                bytes_meet_difficulty(bytes.as_slice(), difficulty)
            } else {
                false
            }
        },
        None => false,
    }
}

} // verus!
