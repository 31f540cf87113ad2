//! Hash sets of account addresses.
use std::collections::HashSet;

use vstd::prelude::*;

use crate::types::Pubkey;

verus! {

/// `ahash::RandomState`, the hasher of `ahash::HashSet`.
#[verifier::external_type_specification]
#[verifier::external_body]
pub struct ExRandomState(ahash::RandomState);

/// Collects keys with `from_iter` of `ahash::HashSet`: the set holds exactly
/// the keys that were given.
#[verifier::external_body]
pub(crate) fn key_set(keys: Vec<Pubkey>) -> (set: ahash::HashSet<Pubkey>)
    ensures
        set@ == keys@.to_set(),
{
    ahash::HashSet::from_iter(keys)
}

/// Looks a key up with `contains` of `ahash::HashSet`.
#[verifier::external_body]
pub(crate) fn key_set_contains(set: &ahash::HashSet<Pubkey>, key: &Pubkey) -> (found: bool)
    ensures
        found == set@.contains(*key),
{
    set.contains(key)
}

/// Copies a key set with `std::collections::HashSet::clone`, which is also the
/// `clone` of `ahash::HashSet`: the copy holds the same keys.
#[verifier::external_body]
pub(crate) fn clone_key_set<S: Clone>(set: &HashSet<Pubkey, S>) -> (copy: HashSet<Pubkey, S>)
    ensures
        copy@ == set@,
{
    set.clone()
}

} // verus!
