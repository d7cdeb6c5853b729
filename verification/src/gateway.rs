//! What the exchange asks of the asset transfer gateway.
//!
//! The exchange never moves an asset itself. It states which movement it needs and
//! who authorises it; the caller hands the request to the ledger and reports how it
//! ended.

use vstd::prelude::*;
use vstd::slice::slice_to_vec;
use crate::identity::Identity;

verus! {

/// The seeds of the address that signs for a pool: a fixed tag, the pool's two
/// assets and the bump.
#[derive(Clone, Copy, Debug, PartialEq, Eq)]
pub struct PoolSigner {
    pub mint_a: Identity,
    pub mint_b: Identity,
    pub bump: u8,
}

impl PoolSigner {
    /// The tag that every pool address starts from: the letters of `pool`.
    pub open spec fn tag() -> Seq<u8> {
        seq![112u8, 111u8, 111u8, 108u8]
    }

    /// The seeds as byte strings, in the order in which the address is derived.
    pub open spec fn spec_seeds(self) -> Seq<Seq<u8>> {
        seq![Self::tag(), self.mint_a@, self.mint_b@, seq![self.bump]]
    }

    /// The seeds of the pool's signing address.
    pub fn seeds(&self) -> (seeds: Vec<Vec<u8>>)
        ensures
            seeds.deep_view() == self.spec_seeds(),
    {
        let tag: Vec<u8> = vec![112u8, 111u8, 111u8, 108u8];
        let first: Vec<u8> = slice_to_vec(self.mint_a.bytes.as_slice());
        let second: Vec<u8> = slice_to_vec(self.mint_b.bytes.as_slice());
        let bump: Vec<u8> = vec![self.bump];
        let seeds: Vec<Vec<u8>> = vec![tag, first, second, bump];
        assert(seeds.deep_view() =~~= self.spec_seeds());
        seeds
    }
}

/// Who authorises a movement.
#[derive(Clone, Copy, Debug, PartialEq, Eq)]
pub enum Authority {
    /// The caller, who signed the operation.
    User(Identity),
    /// The pool itself, through its derived address.
    Pool(PoolSigner),
}

/// A movement of exactly `amount` units of `asset` from one account to another.
#[derive(Clone, Copy, Debug, PartialEq, Eq)]
pub struct TransferRequest {
    pub from: Identity,
    pub to: Identity,
    pub authority: Authority,
    pub asset: Identity,
    pub amount: u64,
}

/// An issue of `amount` liquidity shares to an account, authorised by the pool.
#[derive(Clone, Copy, Debug, PartialEq, Eq)]
pub struct MintRequest {
    pub mint: Identity,
    pub to: Identity,
    pub authority: PoolSigner,
    pub amount: u64,
}

/// A request to the gateway.
#[derive(Clone, Copy, Debug, PartialEq, Eq)]
pub enum GatewayCall {
    Transfer(TransferRequest),
    MintTo(MintRequest),
}

/// How the gateway answered a request.
#[derive(Clone, Copy, Debug, PartialEq, Eq, Structural)]
pub enum GatewayOutcome {
    /// The movement took place, in full.
    Completed,
    /// The movement did not take place.
    Failed,
}

/// The request that moves `amount` of `mint` from a user's account into a pool's
/// holding account. The user signs.
pub fn transfer_tokens_to_pool(
    from: Identity,
    to: Identity,
    authority: Identity,
    mint: Identity,
    amount: u64,
) -> (request: TransferRequest)
    ensures
        request == (TransferRequest {
            from,
            to,
            authority: Authority::User(authority),
            asset: mint,
            amount,
        }),
{
    TransferRequest { from, to, authority: Authority::User(authority), asset: mint, amount }
}

/// The request that moves `amount` of `mint` out of a pool's holding account to a
/// user's account. The pool signs, with the seeds of its own address.
pub fn transfer_tokens_from_pool(
    from: Identity,
    to: Identity,
    mint: Identity,
    amount: u64,
    signer: PoolSigner,
) -> (request: TransferRequest)
    ensures
        request == (TransferRequest {
            from,
            to,
            authority: Authority::Pool(signer),
            asset: mint,
            amount,
        }),
{
    TransferRequest { from, to, authority: Authority::Pool(signer), asset: mint, amount }
}

} // verus!
