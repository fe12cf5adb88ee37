use candid::Principal;
use pow_mining::chain::{
    get_difficulty, get_height, get_tip, get_validator, init_chain, set_validator,
    submit_valid_block, ChainError, ChainState,
};
use pow_mining::refueler::{
    assess_canister, get_refueler_state, last_report, record_report, start_refueler, stop_refueler, unwatch_canister,
    watch_canister, RefuelerState, DEFAULT_CRITICAL_WATERMARK, DEFAULT_LOW_WATERMARK,
};

fn p(i: u8) -> Principal {
    Principal::from_slice(&[9, i])
}

#[test]
fn uninitialised_chain_refuses() {
    let mut chain: Option<ChainState> = None;
    assert_eq!(get_tip(&chain).unwrap_err(), ChainError::NotInitialized);
    assert_eq!(get_height(&chain), Err(ChainError::NotInitialized));
    assert_eq!(get_difficulty(&chain), Err(ChainError::NotInitialized));
    assert_eq!(get_validator(&chain), Err(ChainError::NotInitialized));
    assert_eq!(submit_valid_block(&mut chain, p(1), "h".to_string(), None, 5), Err(ChainError::NotInitialized));
    assert_eq!(set_validator(&mut chain, p(1), p(2)), Err(ChainError::NotInitialized));
    assert!(chain.is_none());
}

#[test]
fn validator_advances_tip() {
    let mut chain = None;
    init_chain(&mut chain, "genesis".to_string(), 8, p(1), 100);
    let tip = get_tip(&chain).unwrap();
    assert_eq!((tip.height, tip.block_hash.as_str(), tip.difficulty, tip.last_update_ns), (0, "genesis", 8, 100));
    assert_eq!(submit_valid_block(&mut chain, p(2), "x".to_string(), Some(9), 200), Err(ChainError::NotValidator));
    assert_eq!(get_height(&chain), Ok(0));
    assert_eq!(submit_valid_block(&mut chain, p(1), "b1".to_string(), None, 300), Ok(()));
    assert_eq!(submit_valid_block(&mut chain, p(1), "b2".to_string(), Some(10), 400), Ok(()));
    let tip = get_tip(&chain).unwrap();
    assert_eq!((tip.height, tip.block_hash.as_str(), tip.difficulty, tip.last_update_ns), (2, "b2", 10, 400));
}

#[test]
fn validator_rotation_needs_current_validator() {
    let mut chain = None;
    init_chain(&mut chain, "g".to_string(), 1, p(1), 0);
    assert_eq!(set_validator(&mut chain, p(2), p(2)), Err(ChainError::NotValidator));
    assert_eq!(get_validator(&chain), Ok(p(1)));
    assert_eq!(set_validator(&mut chain, p(1), p(3)), Ok(()));
    assert_eq!(get_validator(&chain), Ok(p(3)));
    assert_eq!(submit_valid_block(&mut chain, p(1), "x".to_string(), None, 1), Err(ChainError::NotValidator));
}

#[test]
fn watch_list_has_no_duplicates() {
    let mut st = RefuelerState::new();
    start_refueler(&mut st);
    assert!(st.running);
    watch_canister(&mut st, p(1), None, None);
    watch_canister(&mut st, p(2), Some(10), Some(5));
    watch_canister(&mut st, p(1), Some(1), Some(1));
    assert_eq!(st.watched.len(), 2);
    assert_eq!(st.watched[0].low_watermark, DEFAULT_LOW_WATERMARK);
    assert_eq!(st.watched[0].critical_watermark, DEFAULT_CRITICAL_WATERMARK);
    assert_eq!((st.watched[1].low_watermark, st.watched[1].critical_watermark), (10, 5));
    unwatch_canister(&mut st, p(1));
    assert_eq!(st.watched.len(), 1);
    assert_eq!(st.watched[0].canister, p(2));
    stop_refueler(&mut st);
    assert!(!st.running);
}

#[test]
fn health_against_thresholds() {
    let mut st = RefuelerState::new();
    watch_canister(&mut st, p(1), Some(100), Some(50));
    let w = &st.watched[0];
    let h = assess_canister(w, Some(40), 7);
    assert!(h.is_low && h.is_critical);
    assert_eq!((h.cycles, h.last_checked), (40, 7));
    let h = assess_canister(w, Some(60), 7);
    assert!(h.is_low && !h.is_critical);
    let h = assess_canister(w, Some(100), 7);
    assert!(!h.is_low && !h.is_critical);
    let h = assess_canister(w, None, 7);
    assert!(!h.is_low && !h.is_critical);
    assert_eq!(h.cycles, 0);
    record_report(&mut st, vec![h], 99);
    assert_eq!(st.last_tick, 99);
    assert_eq!(st.last_report.len(), 1);
    let copy = get_refueler_state(&st);
    assert_eq!((copy.running, copy.last_tick, copy.watched.len()), (false, 99, 1));
    assert_eq!(copy.watched[0].canister, p(1));
    let report = last_report(&st);
    assert_eq!(report.len(), 1);
    assert_eq!((report[0].canister, report[0].cycles, report[0].is_low), (p(1), 0, false));
}
