//! The chain tip kept by the chain controller, advanced only by the
//! designated validator.
use vstd::prelude::*;
use candid::Principal;

verus! {

/// The latest block of the chain.
#[derive(Clone, Debug, PartialEq, Eq)]
pub struct ChainTip {
    pub height: u64,
    pub block_hash: String,
    pub difficulty: u32,
    pub last_update_ns: u64,
}

/// The chain tip and the validator allowed to advance it.
#[derive(Debug)]
pub struct ChainState {
    pub tip: ChainTip,
    pub validator: Principal,
}

/// Why a chain operation was refused; the state is left as it was.
#[derive(Clone, Copy, Debug, PartialEq, Eq, Structural)]
pub enum ChainError {
    /// The chain has not been initialised.
    NotInitialized,
    /// The caller is not the current validator.
    NotValidator,
}

fn copy_tip(t: &ChainTip) -> (r: ChainTip)
    ensures
        r == *t,
{
    ChainTip {
        height: t.height,
        block_hash: t.block_hash.clone(),
        difficulty: t.difficulty,
        last_update_ns: t.last_update_ns,
    }
}

/// Sets up the chain at height 0 with the genesis hash, the initial
/// difficulty and the validator; any earlier state is replaced.
pub fn init_chain(
    chain: &mut Option<ChainState>,
    genesis_hash: String,
    initial_difficulty: u32,
    validator: Principal,
    now: u64,
)
    ensures
        *final(chain) == Some(
            ChainState {
                tip: ChainTip {
                    height: 0,
                    block_hash: genesis_hash,
                    difficulty: initial_difficulty,
                    last_update_ns: now,
                },
                validator,
            },
        ),
{
    *chain = Some(
        ChainState {
            tip: ChainTip {
                height: 0,
                block_hash: genesis_hash,
                difficulty: initial_difficulty,
                last_update_ns: now,
            },
            validator,
        },
    );
}

/// The chain tip.
pub fn get_tip(chain: &Option<ChainState>) -> (r: Result<ChainTip, ChainError>)
    ensures
        match *chain {
            None => r == Err::<ChainTip, ChainError>(ChainError::NotInitialized),
            Some(st) => r == Ok::<ChainTip, ChainError>(st.tip),
        },
{
    match chain {
        None => Err(ChainError::NotInitialized),
        Some(st) => Ok(copy_tip(&st.tip)),
    }
}

/// The difficulty at the tip.
pub fn get_difficulty(chain: &Option<ChainState>) -> (r: Result<u32, ChainError>)
    ensures
        match *chain {
            None => r == Err::<u32, ChainError>(ChainError::NotInitialized),
            Some(st) => r == Ok::<u32, ChainError>(st.tip.difficulty),
        },
{
    match chain {
        None => Err(ChainError::NotInitialized),
        Some(st) => Ok(st.tip.difficulty),
    }
}

/// The height of the tip.
pub fn get_height(chain: &Option<ChainState>) -> (r: Result<u64, ChainError>)
    ensures
        match *chain {
            None => r == Err::<u64, ChainError>(ChainError::NotInitialized),
            Some(st) => r == Ok::<u64, ChainError>(st.tip.height),
        },
{
    match chain {
        None => Err(ChainError::NotInitialized),
        Some(st) => Ok(st.tip.height),
    }
}

/// Advances the tip by one block on behalf of `caller`, who must be the
/// validator: the height grows by one (saturating at `u64::MAX`), the hash
/// is replaced, the difficulty too when one is given, and `now` is stamped.
pub fn submit_valid_block(
    chain: &mut Option<ChainState>,
    caller: Principal,
    new_block_hash: String,
    new_difficulty: Option<u32>,
    now: u64,
) -> (r: Result<(), ChainError>)
    ensures
        match *old(chain) {
            None => r == Err::<(), ChainError>(ChainError::NotInitialized) && *final(chain) is None,
            Some(st) => if caller != st.validator {
                r == Err::<(), ChainError>(ChainError::NotValidator) && *final(chain) == *old(chain)
            } else {
                r is Ok && *final(chain) == Some(
                    ChainState {
                        tip: ChainTip {
                            height: if st.tip.height == u64::MAX {
                                u64::MAX
                            } else {
                                (st.tip.height + 1) as u64
                            },
                            block_hash: new_block_hash,
                            difficulty: match new_difficulty {
                                Some(d) => d,
                                None => st.tip.difficulty,
                            },
                            last_update_ns: now,
                        },
                        ..st
                    },
                )
            },
        },
{
    match chain {
        None => Err(ChainError::NotInitialized),
        Some(st) => {
            if caller != st.validator {
                return Err(ChainError::NotValidator);
            }
            st.tip.height = st.tip.height.saturating_add(1);
            st.tip.block_hash = new_block_hash;
            if let Some(d) = new_difficulty {
                st.tip.difficulty = d;
            }
            st.tip.last_update_ns = now;
            Ok(())
        },
    }
}

/// Hands the validator role to `new_validator` on behalf of `caller`, who
/// must be the current validator.
pub fn set_validator(chain: &mut Option<ChainState>, caller: Principal, new_validator: Principal) -> (r:
    Result<(), ChainError>)
    ensures
        match *old(chain) {
            None => r == Err::<(), ChainError>(ChainError::NotInitialized) && *final(chain) is None,
            Some(st) => if caller != st.validator {
                r == Err::<(), ChainError>(ChainError::NotValidator) && *final(chain) == *old(chain)
            } else {
                r is Ok && *final(chain) == Some(ChainState { validator: new_validator, ..st })
            },
        },
{
    match chain {
        None => Err(ChainError::NotInitialized),
        Some(st) => {
            if caller != st.validator {
                return Err(ChainError::NotValidator);
            }
            st.validator = new_validator;
            Ok(())
        },
    }
}

/// The current validator.
pub fn get_validator(chain: &Option<ChainState>) -> (r: Result<Principal, ChainError>)
    ensures
        match *chain {
            None => r == Err::<Principal, ChainError>(ChainError::NotInitialized),
            Some(st) => r == Ok::<Principal, ChainError>(st.validator),
        },
{
    match chain {
        None => Err(ChainError::NotInitialized),
        Some(st) => Ok(st.validator),
    }
}

} // verus!
