//! Ledger accounts as plain values.

use vstd::prelude::*;
use crate::identity::Identity;

verus! {

/// An account as the ledger runtime hands it to an operation: where it lives, which
/// program owns it, and the bytes it holds. Nothing in it is trusted until it has
/// been decoded.
#[derive(Clone, Debug, PartialEq, Eq)]
pub struct AccountRecord {
    /// The address of the account.
    pub key: Identity,
    /// The program that owns the account.
    pub owner: Identity,
    /// The raw contents of the account.
    pub data: Vec<u8>,
}

} // verus!
