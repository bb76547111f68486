use vstd::prelude::*;
use std::collections::hash_map::RandomState;
use std::hash::BuildHasher;

verus! {

/// `RandomState::new`: a hasher state with random keys. Nothing is known
/// of the keys.
#[verifier::external_body]
pub(crate) fn random_state() -> (state: RandomState) {
    RandomState::new()
}

/// `BuildHasher::hash_one` of the number zero under `state`: a number
/// that goes by the keys of the state. Nothing is known of it.
#[verifier::external_body]
pub(crate) fn hash_of_zero(state: &RandomState) -> (hash: u64) {
    state.hash_one(0u8)
}

} // verus!
