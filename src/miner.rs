//! The worker's chunk search: scan a nonce range for the first hash that
//! meets the difficulty.
use vstd::prelude::*;
use vstd::utf8::encode_utf8;
use crate::hashing::{
    block_hash, has_zero_prefix, hash_block, hash_to_hex, hex_text, meets_difficulty,
    lemma_midstate_equals_naive, HashMidState,
};

verus! {

/// The outcome of searching one chunk.
#[derive(Clone, Debug, PartialEq, Eq)]
pub enum MiningStatus {
    Found { hash: String, nonce: u64 },
    Continue { next_nonce: u64 },
}

/// `nonce` solves the block at `difficulty`.
pub open spec fn solves(block_data: Seq<char>, difficulty: u32, nonce: int) -> bool {
    has_zero_prefix(block_hash(block_data, nonce as u64), difficulty as int)
}

/// The end of the chunk `[start, start + size)`, clamped at `u64::MAX`.
pub open spec fn chunk_end(start: u64, size: u64) -> u64 {
    if start + size > u64::MAX {
        u64::MAX
    } else {
        (start + size) as u64
    }
}

/// No nonce in `[from, to)` solves the block.
pub open spec fn no_solution_in(block_data: Seq<char>, difficulty: u32, from: int, to: int) -> bool {
    forall|n: int| from <= n < to ==> !#[trigger] solves(block_data, difficulty, n)
}

/// What searching `[start, start + size)` returns: the first solving nonce
/// with its hex hash and the number of nonces tried (the hit included), or
/// the end of the range and its length.
pub open spec fn chunk_result(
    block_data: Seq<char>,
    difficulty: u32,
    start: u64,
    size: u64,
    status: MiningStatus,
    attempts: u64,
) -> bool {
    let end = chunk_end(start, size);
    match status {
        MiningStatus::Found { hash, nonce } => {
            &&& start <= nonce < end
            &&& solves(block_data, difficulty, nonce as int)
            &&& no_solution_in(block_data, difficulty, start as int, nonce as int)
            &&& hash@ == hex_text(block_hash(block_data, nonce))
            &&& attempts == nonce - start + 1
        },
        MiningStatus::Continue { next_nonce } => {
            &&& next_nonce == end
            &&& no_solution_in(block_data, difficulty, start as int, end as int)
            &&& attempts == end - start
        },
    }
}

fn saturating_end(start: u64, size: u64) -> (r: u64)
    ensures
        r == chunk_end(start, size),
{
    start.saturating_add(size)
}

/// Searches `[start_nonce, start_nonce + chunk_size)` (clamped at `u64::MAX`)
/// with a mid-state pre-fed with the block data.
pub fn mine_chunk_with_midstate(
    block_data: String,
    difficulty: u32,
    start_nonce: u64,
    chunk_size: u64,
) -> (r: (MiningStatus, u64))
    ensures
        chunk_result(block_data@, difficulty, start_nonce, chunk_size, r.0, r.1),
{
    let mid = HashMidState::new(block_data.as_str());
    let end = saturating_end(start_nonce, chunk_size);
    let mut nonce: u64 = start_nonce;
    while nonce < end
        invariant
            start_nonce <= nonce <= end,
            end == chunk_end(start_nonce, chunk_size),
            mid@ == encode_utf8(block_data@),
            no_solution_in(block_data@, difficulty, start_nonce as int, nonce as int),
        decreases end - nonce,
    {
        let h = mid.finalize_with_nonce(nonce);
        proof {
            lemma_midstate_equals_naive(mid, block_data@, nonce);
        }
        if meets_difficulty(&h, difficulty) {
            let hash = hash_to_hex(&h);
            return (MiningStatus::Found { hash, nonce }, nonce - start_nonce + 1);
        }
        nonce += 1;
    }
    (MiningStatus::Continue { next_nonce: end }, end - start_nonce)
}

/// The same search as `mine_chunk_with_midstate`, hashing every nonce from
/// scratch.
pub fn mine_chunk_naive(
    block_data: String,
    difficulty: u32,
    start_nonce: u64,
    chunk_size: u64,
) -> (r: (MiningStatus, u64))
    ensures
        chunk_result(block_data@, difficulty, start_nonce, chunk_size, r.0, r.1),
{
    let end = saturating_end(start_nonce, chunk_size);
    let mut nonce: u64 = start_nonce;
    while nonce < end
        invariant
            start_nonce <= nonce <= end,
            end == chunk_end(start_nonce, chunk_size),
            no_solution_in(block_data@, difficulty, start_nonce as int, nonce as int),
        decreases end - nonce,
    {
        let h = hash_block(block_data.as_str(), nonce);
        if meets_difficulty(&h, difficulty) {
            let hash = hash_to_hex(&h);
            return (MiningStatus::Found { hash, nonce }, nonce - start_nonce + 1);
        }
        nonce += 1;
    }
    (MiningStatus::Continue { next_nonce: end }, end - start_nonce)
}

/// The chunk search in flat form `(found, nonce, hash, attempts)`: on a miss
/// the nonce is the end of the range and the hash is empty.
pub fn mine_chunk_simple(
    block_data: String,
    difficulty: u32,
    start_nonce: u64,
    chunk_size: u64,
) -> (r: (bool, u64, String, u64))
    ensures
        r.0 ==> chunk_result(
            block_data@,
            difficulty,
            start_nonce,
            chunk_size,
            MiningStatus::Found { hash: r.2, nonce: r.1 },
            r.3,
        ),
        !r.0 ==> r.2@.len() == 0 && chunk_result(
            block_data@,
            difficulty,
            start_nonce,
            chunk_size,
            MiningStatus::Continue { next_nonce: r.1 },
            r.3,
        ),
{
    let (status, attempts) = mine_chunk_with_midstate(block_data, difficulty, start_nonce, chunk_size);
    match status {
        MiningStatus::Found { hash, nonce } => (true, nonce, hash, attempts),
        MiningStatus::Continue { next_nonce } => (false, next_nonce, String::new(), attempts),
    }
}

/// Hex hash of a block, computed from scratch.
pub fn test_naive_hash(block_data: String, nonce: u64) -> (r: String)
    ensures
        r@ == hex_text(block_hash(block_data@, nonce)),
{
    let h = hash_block(block_data.as_str(), nonce);
    hash_to_hex(&h)
}

/// Hex hash of a block, computed through a mid-state.
pub fn test_midstate_hash(block_data: String, nonce: u64) -> (r: String)
    ensures
        r@ == hex_text(block_hash(block_data@, nonce)),
{
    let mid = HashMidState::new(block_data.as_str());
    let h = mid.finalize_with_nonce(nonce);
    proof {
        lemma_midstate_equals_naive(mid, block_data@, nonce);
    }
    hash_to_hex(&h)
}

/// An empty chunk tries nothing and continues at its start.
pub proof fn lemma_empty_chunk(
    block_data: Seq<char>,
    difficulty: u32,
    start: u64,
    status: MiningStatus,
    attempts: u64,
)
    requires
        chunk_result(block_data, difficulty, start, 0, status, attempts),
    ensures
        status == (MiningStatus::Continue { next_nonce: start }),
        attempts == 0,
{
}

/// A chunk that would run past `u64::MAX` stops there: a miss continues at
/// `u64::MAX`, and a hit lies below it.
pub proof fn lemma_chunk_clamped(
    block_data: Seq<char>,
    difficulty: u32,
    start: u64,
    size: u64,
    status: MiningStatus,
    attempts: u64,
)
    requires
        start + size > u64::MAX,
        chunk_result(block_data, difficulty, start, size, status, attempts),
    ensures
        status matches MiningStatus::Continue { next_nonce } ==> next_nonce == u64::MAX,
        status matches MiningStatus::Found { nonce, .. } ==> nonce < u64::MAX,
        attempts <= u64::MAX - start,
{
}

/// At difficulty zero the first nonce probed is a hit.
pub proof fn lemma_zero_difficulty_first_probe(
    block_data: Seq<char>,
    start: u64,
    size: u64,
    status: MiningStatus,
    attempts: u64,
)
    requires
        chunk_end(start, size) > start,
        chunk_result(block_data, 0, start, size, status, attempts),
    ensures
        status matches MiningStatus::Found { nonce, .. } && nonce == start,
        attempts == 1,
{
    assert(solves(block_data, 0, start as int));
}

} // verus!
