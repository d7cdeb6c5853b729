//! Deposits, step by step.
//!
//! A deposit asks the pool how many shares the two amounts earn, has the gateway
//! move both amounts into the pool and issue the shares to the caller, and books the
//! result. As with a swap, the gateway is the caller's to drive: `add_liquidity`
//! opens the operation, `add_liquidity_call` says which request is owed, and
//! `add_liquidity_step` takes the gateway's answer. The pool changes only once all
//! three requests have gone through.

use vstd::prelude::*;
use crate::error::SwapError;
use crate::gateway::{
    transfer_tokens_to_pool, Authority, GatewayCall, GatewayOutcome, MintRequest,
    TransferRequest,
};
use crate::identity::Identity;
use crate::pool::{DepositQuote, Pool};

verus! {

/// What a deposit works on: the pool, its two assets, the holding accounts of the
/// pool and of the caller, the share asset, the caller's share account, and the
/// caller.
#[derive(Clone, Copy, Debug, PartialEq, Eq)]
pub struct AddLiquidity {
    pub pool: Pool,
    pub mint_a: Identity,
    pub mint_b: Identity,
    pub pool_token_a: Identity,
    pub pool_token_b: Identity,
    pub liquidity_mint: Identity,
    pub user_token_a: Identity,
    pub user_token_b: Identity,
    pub user_liquidity_token: Identity,
    pub user: Identity,
}

/// The request that an open deposit waits for.
#[derive(Clone, Copy, Debug, PartialEq, Eq, Structural)]
pub enum DepositStage {
    /// The first asset has yet to reach the pool.
    FirstAsset,
    /// The first asset is in; the second has yet to reach the pool.
    SecondAsset,
    /// Both assets are in; the shares have yet to be issued.
    Shares,
}

/// An open deposit: the quote that the pool gave and the request that is owed next.
#[derive(Clone, Copy, Debug, PartialEq, Eq)]
pub struct DepositTicket {
    pub quote: DepositQuote,
    pub stage: DepositStage,
}

impl DepositTicket {
    /// The same deposit, waiting for another request.
    pub open spec fn at(self, stage: DepositStage) -> DepositTicket {
        DepositTicket { quote: self.quote, stage }
    }
}

impl AddLiquidity {
    /// How a deposit opens: with the pool's refusal, or with a ticket that waits for
    /// the first asset.
    pub open spec fn opening(self, amount_a: u64, amount_b: u64, min_liquidity: u64) -> Result<
        DepositTicket,
        SwapError,
    > {
        match self.pool.deposit_quote(amount_a, amount_b, min_liquidity) {
            Err(e) => Err(e),
            Ok(quote) => Ok(DepositTicket { quote, stage: DepositStage::FirstAsset }),
        }
    }

    /// The request that a ticket waits for. Each asset goes from the caller's
    /// account to the pool's in the full amount, signed by the caller; the shares
    /// are issued to the caller's share account, signed by the pool.
    pub open spec fn request(self, ticket: DepositTicket) -> GatewayCall {
        match ticket.stage {
            DepositStage::FirstAsset => GatewayCall::Transfer(
                TransferRequest {
                    from: self.user_token_a,
                    to: self.pool_token_a,
                    authority: Authority::User(self.user),
                    asset: self.mint_a,
                    amount: ticket.quote.amount_a,
                },
            ),
            DepositStage::SecondAsset => GatewayCall::Transfer(
                TransferRequest {
                    from: self.user_token_b,
                    to: self.pool_token_b,
                    authority: Authority::User(self.user),
                    asset: self.mint_b,
                    amount: ticket.quote.amount_b,
                },
            ),
            DepositStage::Shares => GatewayCall::MintTo(
                MintRequest {
                    mint: self.liquidity_mint,
                    to: self.user_liquidity_token,
                    authority: self.pool.spec_signer(),
                    amount: ticket.quote.liquidity,
                },
            ),
        }
    }

    /// What the gateway's answer does to an open deposit. A failure ends the deposit
    /// with `TransferFailed`. After each asset the ticket waits for the next request
    /// and nothing else has changed; after the shares the pool books the deposit and
    /// no ticket is left.
    pub open spec fn advance(self, ticket: DepositTicket, outcome: GatewayOutcome) -> Result<
        (AddLiquidity, Option<DepositTicket>),
        SwapError,
    > {
        match outcome {
            GatewayOutcome::Failed => Err(SwapError::TransferFailed),
            GatewayOutcome::Completed => match ticket.stage {
                DepositStage::FirstAsset => Ok((self, Some(ticket.at(DepositStage::SecondAsset)))),
                DepositStage::SecondAsset => Ok((self, Some(ticket.at(DepositStage::Shares)))),
                DepositStage::Shares => match self.pool.after_deposit(ticket.quote) {
                    Err(e) => Err(e),
                    Ok(pool) => Ok((AddLiquidity { pool, ..self }, None)),
                },
            },
        }
    }

    /// A deposit that opens runs to its end when the gateway completes all three
    /// requests: the full first amount, the full second amount, and the shares.
    /// Each reserve then holds exactly what was deposited more, the share count what
    /// was issued more, and nothing else in the context has changed.
    pub proof fn lemma_opened_deposit_completes(self, amount_a: u64, amount_b: u64, min_liquidity: u64)
        requires
            self.opening(amount_a, amount_b, min_liquidity) is Ok,
        ensures
            ({
                let ticket = self.opening(amount_a, amount_b, min_liquidity)->Ok_0;
                let second = ticket.at(DepositStage::SecondAsset);
                let shares = ticket.at(DepositStage::Shares);
                let after = self.pool.after_deposit(ticket.quote)->Ok_0;
                &&& ticket.stage == DepositStage::FirstAsset
                &&& self.request(ticket) matches GatewayCall::Transfer(t) && t.amount == amount_a
                &&& self.advance(ticket, GatewayOutcome::Completed) == Ok::<
                    (AddLiquidity, Option<DepositTicket>),
                    SwapError,
                >((self, Some(second)))
                &&& self.request(second) matches GatewayCall::Transfer(t) && t.amount == amount_b
                &&& self.advance(second, GatewayOutcome::Completed) == Ok::<
                    (AddLiquidity, Option<DepositTicket>),
                    SwapError,
                >((self, Some(shares)))
                &&& self.request(shares) matches GatewayCall::MintTo(m) && m.amount
                    == self.pool.shares_for(amount_a, amount_b)
                &&& self.pool.after_deposit(ticket.quote) is Ok
                &&& self.advance(shares, GatewayOutcome::Completed) == Ok::<
                    (AddLiquidity, Option<DepositTicket>),
                    SwapError,
                >((AddLiquidity { pool: after, ..self }, None))
                &&& after.reserve_a == self.pool.reserve_a + amount_a
                &&& after.reserve_b == self.pool.reserve_b + amount_b
                &&& after.total_liquidity == self.pool.total_liquidity + self.pool.shares_for(
                    amount_a,
                    amount_b,
                )
            }),
    {
        self.pool.lemma_quoted_deposit_settles(amount_a, amount_b, min_liquidity);
    }
}

/// Opens a deposit of `amount_a` and `amount_b`.
///
/// Returns the pool's refusal (`InvalidPoolState`, `ArithmeticOverflow`,
/// `InsufficientLiquidity`) or a ticket for the first movement. Nothing is changed
/// by opening a deposit.
pub fn add_liquidity(ctx: &AddLiquidity, amount_a: u64, amount_b: u64, min_liquidity: u64) -> (r:
    Result<DepositTicket, SwapError>)
    ensures
        r == ctx.opening(amount_a, amount_b, min_liquidity),
        r matches Ok(ticket) ==> ticket.quote.amount_a == amount_a && ticket.quote.amount_b
            == amount_b && ticket.quote.liquidity == ctx.pool.shares_for(amount_a, amount_b)
            && ticket.quote.liquidity >= min_liquidity,
{
    match ctx.pool.quote_deposit(amount_a, amount_b, min_liquidity) {
        Ok(quote) => Ok(DepositTicket { quote, stage: DepositStage::FirstAsset }),
        Err(e) => Err(e),
    }
}

/// The request that an open deposit asks of the gateway next.
pub fn add_liquidity_call(ctx: &AddLiquidity, ticket: &DepositTicket) -> (call: GatewayCall)
    ensures
        call == ctx.request(*ticket),
{
    match ticket.stage {
        DepositStage::FirstAsset => GatewayCall::Transfer(
            transfer_tokens_to_pool(
                ctx.user_token_a,
                ctx.pool_token_a,
                ctx.user,
                ctx.mint_a,
                ticket.quote.amount_a,
            ),
        ),
        DepositStage::SecondAsset => GatewayCall::Transfer(
            transfer_tokens_to_pool(
                ctx.user_token_b,
                ctx.pool_token_b,
                ctx.user,
                ctx.mint_b,
                ticket.quote.amount_b,
            ),
        ),
        DepositStage::Shares => GatewayCall::MintTo(
            MintRequest {
                mint: ctx.liquidity_mint,
                to: ctx.user_liquidity_token,
                authority: ctx.pool.signer(),
                amount: ticket.quote.liquidity,
            },
        ),
    }
}

/// Takes the gateway's answer to the request that `ticket` waited for.
///
/// Returns the ticket for the next request, or `None` once the deposit is booked.
/// Fails with `TransferFailed` when the gateway failed, and with
/// `ArithmeticOverflow` when the pool cannot carry the ticket's quote; a failed step
/// changes nothing.
pub fn add_liquidity_step(ctx: &mut AddLiquidity, ticket: DepositTicket, outcome: GatewayOutcome) -> (r:
    Result<Option<DepositTicket>, SwapError>)
    ensures
        match old(ctx).advance(ticket, outcome) {
            Ok((after, next)) => r == Ok::<Option<DepositTicket>, SwapError>(next) && *final(ctx)
                == after,
            Err(e) => r == Err::<Option<DepositTicket>, SwapError>(e) && *final(ctx) == *old(ctx),
        },
{
    match outcome {
        GatewayOutcome::Failed => Err(SwapError::TransferFailed),
        GatewayOutcome::Completed => match ticket.stage {
            DepositStage::FirstAsset => Ok(
                Some(DepositTicket { quote: ticket.quote, stage: DepositStage::SecondAsset }),
            ),
            DepositStage::SecondAsset => Ok(
                Some(DepositTicket { quote: ticket.quote, stage: DepositStage::Shares }),
            ),
            DepositStage::Shares => match ctx.pool.settle_deposit(&ticket.quote) {
                Ok(_) => Ok(None),
                Err(e) => Err(e),
            },
        },
    }
}

} // verus!
