use pow_mining::hashing::{
    bytes_meet_difficulty, hash_block, hash_to_hex, meets_difficulty, HashMidState,
};
use pow_mining::validator::compute_hash;
use sha2::{Digest, Sha256};
use pow_mining::miner::{
    mine_chunk_naive, mine_chunk_simple, mine_chunk_with_midstate, test_midstate_hash,
    test_naive_hash, MiningStatus,
};

fn sha256_digest(data: &[u8]) -> [u8; 32] {
    Sha256::digest(data).into()
}

#[test]
fn block_hash_of_empty_data_is_known_digest() {
    // SHA-256 over the eight zero bytes of nonce 0
    assert_eq!(
        compute_hash(String::new(), 0),
        "af5570f5a1810b7af78caf4bc70a660f0df51e42baf91d4de5b2328de0e83dfc"
    );
}

#[test]
fn compute_hash_matches_sha256_of_data_and_nonce() {
    let mut input = b"abc".to_vec();
    input.extend_from_slice(&5u64.to_le_bytes());
    let expected: String = sha256_digest(&input).iter().map(|b| format!("{:02x}", b)).collect();
    assert_eq!(compute_hash("abc".to_string(), 5), expected);
}

#[test]
fn hex_is_lowercase_two_digits_per_byte() {
    assert_eq!(hash_to_hex(&[0x00, 0x0f, 0xa0, 0xff]), "000fa0ff");
    assert_eq!(hash_to_hex(&[]), "");
}

#[test]
fn block_hash_is_sha_of_data_then_le_nonce() {
    let mut input = b"abc".to_vec();
    input.extend_from_slice(&7u64.to_le_bytes());
    assert_eq!(hash_block("abc", 7), sha256_digest(&input));
}

#[test]
fn midstate_equals_naive_hash() {
    for data in ["", "abc", "block with spaces", "ünïcödé"] {
        let mid = HashMidState::new(data);
        for nonce in [0u64, 1, 255, 256, 123_456_789, u64::MAX] {
            assert_eq!(mid.finalize_with_nonce(nonce), hash_block(data, nonce));
            assert_eq!(
                test_naive_hash(data.to_string(), nonce),
                test_midstate_hash(data.to_string(), nonce)
            );
        }
    }
}

#[test]
fn difficulty_counts_leading_zero_bits() {
    let mut h = [0xffu8; 32];
    h[0] = 0x00;
    h[1] = 0x1f; // three more zero bits
    assert!(meets_difficulty(&h, 0));
    assert!(meets_difficulty(&h, 8));
    assert!(meets_difficulty(&h, 11));
    assert!(!meets_difficulty(&h, 12));
    let h2 = [0x80u8; 32];
    assert!(meets_difficulty(&h2, 0));
    assert!(!meets_difficulty(&h2, 1));
}

#[test]
fn difficulty_zero_always_met() {
    assert!(meets_difficulty(&[0xffu8; 32], 0));
}

#[test]
fn full_difficulty_needs_all_zero_hash() {
    let zero = [0u8; 32];
    assert!(meets_difficulty(&zero, 256));
    assert!(!meets_difficulty(&zero, 257));
    assert!(!meets_difficulty(&zero, 1000));
    let mut last_bit = [0u8; 32];
    last_bit[31] = 1;
    assert!(meets_difficulty(&last_bit, 255));
    assert!(!meets_difficulty(&last_bit, 256));
}

#[test]
fn difficulty_on_byte_strings() {
    assert!(bytes_meet_difficulty(&[0x00, 0x7f], 9));
    assert!(!bytes_meet_difficulty(&[0x00, 0x7f], 10));
    assert!(!bytes_meet_difficulty(&[], 1));
}

fn first_solution(data: &str, difficulty: u32, limit: u64) -> Option<u64> {
    (0..limit).find(|n| meets_difficulty(&hash_block(data, *n), difficulty))
}

#[test]
fn known_solution_abc_difficulty_8() {
    let expected = first_solution("abc", 8, 10_000).expect("a solution below 10000");
    let (status, attempts) = mine_chunk_with_midstate("abc".to_string(), 8, 0, 10_000);
    match status {
        MiningStatus::Found { hash, nonce } => {
            assert_eq!(nonce, expected);
            assert!(hash.starts_with("00"));
            assert_eq!(hash, hash_to_hex(&hash_block("abc", nonce)));
            assert_eq!(attempts, nonce + 1);
        }
        MiningStatus::Continue { .. } => panic!("expected a solution"),
    }
    let (naive, naive_attempts) = mine_chunk_naive("abc".to_string(), 8, 0, 10_000);
    assert_eq!(naive, mine_chunk_with_midstate("abc".to_string(), 8, 0, 10_000).0);
    assert_eq!(naive_attempts, attempts);
}

#[test]
fn no_solution_in_short_range() {
    let (status, attempts) = mine_chunk_with_midstate("x".to_string(), 32, 0, 5);
    assert_eq!(status, MiningStatus::Continue { next_nonce: 5 });
    assert_eq!(attempts, 5);
}

#[test]
fn empty_chunk_continues_at_start() {
    let (status, attempts) = mine_chunk_with_midstate("x".to_string(), 0, 42, 0);
    assert_eq!(status, MiningStatus::Continue { next_nonce: 42 });
    assert_eq!(attempts, 0);
}

#[test]
fn chunk_clamped_at_u64_max() {
    let start = u64::MAX - 3;
    let (status, attempts) = mine_chunk_with_midstate("x".to_string(), 250, start, 100);
    assert_eq!(status, MiningStatus::Continue { next_nonce: u64::MAX });
    assert_eq!(attempts, 3);
}

#[test]
fn zero_difficulty_first_probe_wins() {
    let (status, attempts) = mine_chunk_with_midstate("abc".to_string(), 0, 77, 1000);
    match status {
        MiningStatus::Found { nonce, hash } => {
            assert_eq!(nonce, 77);
            assert_eq!(hash, test_naive_hash("abc".to_string(), 77));
        }
        MiningStatus::Continue { .. } => panic!("expected a solution"),
    }
    assert_eq!(attempts, 1);
}

#[test]
fn simple_form_matches_tagged_form() {
    let (found, nonce, hash, attempts) = mine_chunk_simple("abc".to_string(), 8, 0, 10_000);
    let (status, tagged_attempts) = mine_chunk_with_midstate("abc".to_string(), 8, 0, 10_000);
    assert!(found);
    assert_eq!(status, MiningStatus::Found { hash, nonce });
    assert_eq!(attempts, tagged_attempts);

    let (found, nonce, hash, attempts) = mine_chunk_simple("x".to_string(), 32, 10, 5);
    assert!(!found);
    assert_eq!(nonce, 15);
    assert_eq!(hash, "");
    assert_eq!(attempts, 5);
}
