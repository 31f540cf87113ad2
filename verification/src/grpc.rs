//! Account updates in the form that callbacks take.
use vstd::prelude::*;

use crate::types::{Pubkey, Slot};

verus! {

/// An update of an account.
#[derive(Debug, Clone, Copy, PartialEq, Eq)]
pub struct AccountUpdate<'a> {
    pub owner: Pubkey,
    pub pubkey: Pubkey,
    pub slot: Slot,
    pub lamports: u64,
    pub executable: bool,
    pub rent_epoch: u64,
    pub data: &'a [u8],
}

} // verus!
