//! Proof-of-work mining coordination: hashing and difficulty checks, the
//! worker's chunk search with its solution cache and metrics, the
//! coordinator's round-robin scheduler, and block and chain validation.
use vstd::prelude::*;

pub mod hashing;
pub mod miner;
pub mod metrics;
pub mod cache;
pub mod worker;
pub mod scheduler;
pub mod coordinator;
pub mod validator;
pub mod chain;
pub mod refueler;

verus! {

/// Node identities are candid principals, carried through as opaque values.
#[verifier::external_type_specification]
#[verifier::external_body]
pub struct ExPrincipal(candid::Principal);

/// Relies on the derived `PartialEq` of candid's `Principal`, which compares
/// the length and the bytes: equal exactly when the values are equal.
pub assume_specification[ <candid::Principal as PartialEq>::eq ](
    a: &candid::Principal,
    b: &candid::Principal,
) -> (r: bool)
    ensures
        r == (*a == *b),
;

} // verus!
