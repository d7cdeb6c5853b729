//! The errors of the exchange and of the whitelist policy.
//!
//! Every error ends the operation that met it; none is retried, and an operation that
//! returns one has changed nothing.

use vstd::prelude::*;

verus! {

/// Why an operation of the exchange was refused.
#[derive(Clone, Copy, Debug, PartialEq, Eq, Structural)]
pub enum SwapError {
    /// The caller is not the admin of the registry.
    Unauthorized,
    /// The callback program is on the allow-list already.
    AlreadyApproved,
    /// The allow-list is full.
    CapacityExceeded,
    /// The fee rate is not below one hundred percent.
    InvalidConfig,
    /// An asset record is not owned by the token program, or does not decode.
    InvalidMint,
    /// The pool holds nothing to trade against, or its numbers contradict each other.
    InvalidPoolState,
    /// A deposit would issue fewer shares than the caller asked for.
    InsufficientLiquidity,
    /// A swap would pay out less than the caller asked for.
    SlippageExceeded,
    /// An asset names a transfer hook that the registry has not approved.
    UnauthorizedHook,
    /// A number does not fit in 64 bits.
    ArithmeticOverflow,
    /// A quotient has a zero divisor.
    DivisionByZero,
    /// The gateway reported that a transfer or a mint did not go through.
    TransferFailed,
}

/// Why the whitelist policy refused an operation.
#[derive(Clone, Copy, Debug, PartialEq, Eq, Structural)]
pub enum HookError {
    /// The caller is not the admin of the whitelist.
    Unauthorized,
    /// The identity is on the whitelist already.
    AlreadyApproved,
    /// The whitelist is full.
    CapacityExceeded,
    /// Neither the owner of the source nor the owner of the destination is whitelisted.
    NotWhitelisted,
    /// A token account record does not decode.
    InvalidAccountData,
}

} // verus!
