//! Swaps, step by step.
//!
//! A swap checks both assets against the registry, takes a quote from the pool, has
//! the gateway move the input into the pool and the output out of it, and books the
//! result. The gateway is the caller's to drive: `swap` opens the operation,
//! `swap_call` says which movement is owed, and `swap_step` takes the gateway's
//! answer and says what comes next. The pool changes only once both movements have
//! gone through; an operation that fails at any point leaves it as it was.

use vstd::prelude::*;
use crate::account::AccountRecord;
use crate::error::SwapError;
use crate::gateway::{
    transfer_tokens_from_pool, transfer_tokens_to_pool, Authority, GatewayOutcome,
    TransferRequest,
};
use crate::hook_guard::{mint_verdict, validate_token_hooks};
use crate::identity::Identity;
use crate::pool::{Pool, SwapQuote};
use crate::quote::BASIS_POINTS;
use crate::registry::Config;

verus! {

/// What a swap works on: the pool, the registry, the two asset accounts, the holding
/// accounts of the pool and of the caller, and the caller.
#[derive(Clone, Debug, PartialEq, Eq)]
pub struct Swap {
    pub pool: Pool,
    pub config: Config,
    pub mint_a: AccountRecord,
    pub mint_b: AccountRecord,
    pub pool_token_a: Identity,
    pub pool_token_b: Identity,
    pub user_token_a: Identity,
    pub user_token_b: Identity,
    pub user: Identity,
}

/// The movement that an open swap waits for.
#[derive(Clone, Copy, Debug, PartialEq, Eq, Structural)]
pub enum SwapStage {
    /// The caller's input has yet to reach the pool.
    Deposit,
    /// The input is in; the pool's output has yet to reach the caller.
    Payout,
}

/// An open swap: the quote that the pool gave and the movement that is owed next.
#[derive(Clone, Copy, Debug, PartialEq, Eq)]
pub struct SwapTicket {
    pub quote: SwapQuote,
    pub stage: SwapStage,
}

impl SwapTicket {
    /// The same swap, waiting for another movement.
    pub open spec fn at(self, stage: SwapStage) -> SwapTicket {
        SwapTicket { quote: self.quote, stage }
    }
}

impl Swap {
    /// The verdict on the two assets. For a swap from the first asset to the second
    /// the first asset is judged first; a verdict against it is the one reported.
    pub open spec fn hooks_verdict(self, a_to_b: bool) -> Result<(), SwapError> {
        let hooks = self.config@.whitelisted_hooks;
        let first = if a_to_b {
            self.mint_a
        } else {
            self.mint_b
        };
        let second = if a_to_b {
            self.mint_b
        } else {
            self.mint_a
        };
        match mint_verdict(hooks, first.data@) {
            Err(e) => Err(e),
            Ok(_) => mint_verdict(hooks, second.data@),
        }
    }

    /// How a swap opens: with the verdict against an asset, with the pool's refusal
    /// of the quote, or with a ticket that waits for the caller's input.
    pub open spec fn opening(self, amount_in: u64, minimum_amount_out: u64, a_to_b: bool) -> Result<
        SwapTicket,
        SwapError,
    > {
        match self.hooks_verdict(a_to_b) {
            Err(e) => Err(e),
            Ok(_) => match self.pool.swap_quote(
                self.config.fee_rate,
                amount_in,
                minimum_amount_out,
                a_to_b,
            ) {
                Err(e) => Err(e),
                Ok(quote) => Ok(SwapTicket { quote, stage: SwapStage::Deposit }),
            },
        }
    }

    /// The movement that a ticket waits for. The input goes from the caller's
    /// account to the pool's, signed by the caller; the output goes from the pool's
    /// account to the caller's, signed by the pool.
    pub open spec fn request(self, ticket: SwapTicket) -> TransferRequest {
        match ticket.stage {
            SwapStage::Deposit => TransferRequest {
                from: if ticket.quote.a_to_b {
                    self.user_token_a
                } else {
                    self.user_token_b
                },
                to: if ticket.quote.a_to_b {
                    self.pool_token_a
                } else {
                    self.pool_token_b
                },
                authority: Authority::User(self.user),
                asset: if ticket.quote.a_to_b {
                    self.mint_a.key
                } else {
                    self.mint_b.key
                },
                amount: ticket.quote.amount_in,
            },
            SwapStage::Payout => TransferRequest {
                from: if ticket.quote.a_to_b {
                    self.pool_token_b
                } else {
                    self.pool_token_a
                },
                to: if ticket.quote.a_to_b {
                    self.user_token_b
                } else {
                    self.user_token_a
                },
                authority: Authority::Pool(self.pool.spec_signer()),
                asset: if ticket.quote.a_to_b {
                    self.mint_b.key
                } else {
                    self.mint_a.key
                },
                amount: ticket.quote.amount_out,
            },
        }
    }

    /// What the gateway's answer does to an open swap. A failure ends the swap with
    /// `TransferFailed`. After the input the ticket waits for the output and nothing
    /// else has changed; after the output the pool books the swap and no ticket is
    /// left.
    pub open spec fn advance(self, ticket: SwapTicket, outcome: GatewayOutcome) -> Result<
        (Swap, Option<SwapTicket>),
        SwapError,
    > {
        match outcome {
            GatewayOutcome::Failed => Err(SwapError::TransferFailed),
            GatewayOutcome::Completed => match ticket.stage {
                SwapStage::Deposit => Ok((self, Some(ticket.at(SwapStage::Payout)))),
                SwapStage::Payout => match self.pool.after_swap(ticket.quote) {
                    Err(e) => Err(e),
                    Ok(pool) => Ok((Swap { pool, ..self }, None)),
                },
            },
        }
    }

    /// A swap that opens runs to its end when the gateway completes both movements:
    /// first the full input into the pool, then the quoted output out of it. The
    /// pool then holds the input more and the output less, and nothing else in the
    /// context has changed.
    pub proof fn lemma_opened_swap_completes(self, amount_in: u64, minimum_amount_out: u64, a_to_b: bool)
        requires
            self.opening(amount_in, minimum_amount_out, a_to_b) is Ok,
        ensures
            ({
                let ticket = self.opening(amount_in, minimum_amount_out, a_to_b)->Ok_0;
                let paid = ticket.at(SwapStage::Payout);
                let after = self.pool.after_swap(ticket.quote)->Ok_0;
                &&& ticket.stage == SwapStage::Deposit
                &&& self.request(ticket).amount == amount_in
                &&& self.advance(ticket, GatewayOutcome::Completed) == Ok::<
                    (Swap, Option<SwapTicket>),
                    SwapError,
                >((self, Some(paid)))
                &&& self.request(paid).amount == self.pool.output_for(
                    self.config.fee_rate,
                    amount_in,
                    a_to_b,
                )
                &&& self.pool.after_swap(ticket.quote) is Ok
                &&& self.advance(paid, GatewayOutcome::Completed) == Ok::<
                    (Swap, Option<SwapTicket>),
                    SwapError,
                >((Swap { pool: after, ..self }, None))
                &&& after.reserve_in(a_to_b) == self.pool.reserve_in(a_to_b) + amount_in
                &&& after.reserve_out(a_to_b) == self.pool.reserve_out(a_to_b)
                    - self.pool.output_for(self.config.fee_rate, amount_in, a_to_b)
                &&& after.product() >= self.pool.product()
                &&& self.config.fee_rate > 0 && amount_in > 0 ==> after.product()
                    > self.pool.product()
            }),
    {
        self.pool.lemma_quoted_swap_settles(
            self.config.fee_rate,
            amount_in,
            minimum_amount_out,
            a_to_b,
        );
    }

    /// A swap whose minimum lies above the quote is refused with `SlippageExceeded`,
    /// provided that both assets pass, the fee is valid and the pool holds both
    /// assets.
    pub proof fn lemma_slippage_refused(self, amount_in: u64, minimum_amount_out: u64, a_to_b: bool)
        requires
            self.hooks_verdict(a_to_b) is Ok,
            self.config.fee_rate < BASIS_POINTS,
            self.pool.reserve_a > 0,
            self.pool.reserve_b > 0,
            minimum_amount_out > self.pool.output_for(self.config.fee_rate, amount_in, a_to_b),
        ensures
            self.opening(amount_in, minimum_amount_out, a_to_b) == Err::<SwapTicket, SwapError>(
                SwapError::SlippageExceeded,
            ),
    {
    }
}

/// Opens a swap of `amount_in` in the given direction.
///
/// The assets are judged in the order of the direction, and the first verdict
/// against one is returned (`InvalidMint`, `UnauthorizedHook`). Then the pool is
/// asked for a quote, and its refusal is returned (`InvalidConfig`,
/// `InvalidPoolState`, `SlippageExceeded`, `ArithmeticOverflow`). Nothing is changed
/// by opening a swap.
pub fn swap(ctx: &Swap, amount_in: u64, minimum_amount_out: u64, a_to_b: bool) -> (r: Result<
    SwapTicket,
    SwapError,
>)
    ensures
        r == ctx.opening(amount_in, minimum_amount_out, a_to_b),
        r matches Ok(ticket) ==> ticket.quote.amount_in == amount_in && ticket.quote.amount_out
            == ctx.pool.output_for(ctx.config.fee_rate, amount_in, a_to_b)
            && ticket.quote.amount_out >= minimum_amount_out,
{
    if a_to_b {
        match validate_token_hooks(&ctx.config, &ctx.mint_a) {
            Ok(_) => {},
            Err(e) => {
                return Err(e);
            },
        }
        match validate_token_hooks(&ctx.config, &ctx.mint_b) {
            Ok(_) => {},
            Err(e) => {
                return Err(e);
            },
        }
    } else {
        match validate_token_hooks(&ctx.config, &ctx.mint_b) {
            Ok(_) => {},
            Err(e) => {
                return Err(e);
            },
        }
        match validate_token_hooks(&ctx.config, &ctx.mint_a) {
            Ok(_) => {},
            Err(e) => {
                return Err(e);
            },
        }
    }
    match ctx.pool.quote_swap(ctx.config.fee_rate, amount_in, minimum_amount_out, a_to_b) {
        Ok(quote) => Ok(SwapTicket { quote, stage: SwapStage::Deposit }),
        Err(e) => Err(e),
    }
}

/// The movement that an open swap asks of the gateway next.
pub fn swap_call(ctx: &Swap, ticket: &SwapTicket) -> (request: TransferRequest)
    ensures
        request == ctx.request(*ticket),
{
    match ticket.stage {
        SwapStage::Deposit => {
            if ticket.quote.a_to_b {
                transfer_tokens_to_pool(
                    ctx.user_token_a,
                    ctx.pool_token_a,
                    ctx.user,
                    ctx.mint_a.key,
                    ticket.quote.amount_in,
                )
            } else {
                transfer_tokens_to_pool(
                    ctx.user_token_b,
                    ctx.pool_token_b,
                    ctx.user,
                    ctx.mint_b.key,
                    ticket.quote.amount_in,
                )
            }
        },
        SwapStage::Payout => {
            if ticket.quote.a_to_b {
                transfer_tokens_from_pool(
                    ctx.pool_token_b,
                    ctx.user_token_b,
                    ctx.mint_b.key,
                    ticket.quote.amount_out,
                    ctx.pool.signer(),
                )
            } else {
                transfer_tokens_from_pool(
                    ctx.pool_token_a,
                    ctx.user_token_a,
                    ctx.mint_a.key,
                    ticket.quote.amount_out,
                    ctx.pool.signer(),
                )
            }
        },
    }
}

/// Takes the gateway's answer to the movement that `ticket` waited for.
///
/// Returns the ticket for the next movement, or `None` once the swap is booked.
/// Fails with `TransferFailed` when the gateway failed, and with
/// `ArithmeticOverflow` when the pool cannot carry the ticket's quote; a failed step
/// changes nothing.
pub fn swap_step(ctx: &mut Swap, ticket: SwapTicket, outcome: GatewayOutcome) -> (r: Result<
    Option<SwapTicket>,
    SwapError,
>)
    ensures
        match old(ctx).advance(ticket, outcome) {
            Ok((after, next)) => r == Ok::<Option<SwapTicket>, SwapError>(next) && *final(ctx)
                == after,
            Err(e) => r == Err::<Option<SwapTicket>, SwapError>(e) && *final(ctx) == *old(ctx),
        },
{
    match outcome {
        GatewayOutcome::Failed => Err(SwapError::TransferFailed),
        GatewayOutcome::Completed => match ticket.stage {
            SwapStage::Deposit => Ok(
                Some(SwapTicket { quote: ticket.quote, stage: SwapStage::Payout }),
            ),
            SwapStage::Payout => match ctx.pool.settle_swap(&ticket.quote) {
                Ok(_) => Ok(None),
                Err(e) => Err(e),
            },
        },
    }
}

} // verus!
