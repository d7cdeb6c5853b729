//! The liquidity ledger: the reserves and the issued shares of one asset pair, the
//! quotes taken from them, and the way a completed operation changes them.

use vstd::prelude::*;
use spl_token_2022::solana_program::pubkey::Pubkey;
use crate::account::AccountRecord;
use crate::error::SwapError;
use crate::gateway::PoolSigner;
use crate::identity::Identity;
use crate::quote::{quote_liquidity, quote_swap, shares_issued, swap_output, BASIS_POINTS};
use crate::quote::{lemma_output_bounds, lemma_product_never_falls};

verus! {

/// The ledger of one asset pair.
#[derive(Clone, Copy, Debug, PartialEq, Eq)]
pub struct Pool {
    /// The first asset of the pair.
    pub mint_a: Identity,
    /// The second asset of the pair.
    pub mint_b: Identity,
    /// What the pool holds of the first asset.
    pub reserve_a: u64,
    /// What the pool holds of the second asset.
    pub reserve_b: u64,
    /// The liquidity shares issued so far.
    pub total_liquidity: u64,
    /// A reference price. No quote reads it.
    pub price: u64,
    /// The bump of the address that the pool lives at and signs with.
    pub bump: u8,
}

/// A swap that the pool has agreed to: the direction, what comes in and what goes
/// out.
#[derive(Clone, Copy, Debug, PartialEq, Eq)]
pub struct SwapQuote {
    pub a_to_b: bool,
    pub amount_in: u64,
    pub amount_out: u64,
}

/// A deposit that the pool has agreed to: what comes in of each asset and the shares
/// issued for it.
#[derive(Clone, Copy, Debug, PartialEq, Eq)]
pub struct DepositQuote {
    pub amount_a: u64,
    pub amount_b: u64,
    pub liquidity: u64,
}

impl Pool {
    /// The invariant of a pool: its assets differ, and shares exist only against
    /// reserves of both assets.
    pub open spec fn wf(self) -> bool {
        &&& self.mint_a != self.mint_b
        &&& self.total_liquidity > 0 ==> self.reserve_a > 0 && self.reserve_b > 0
    }

    /// A pool in which the two reserves and the issued shares are zero together or
    /// not at all.
    pub open spec fn balanced(self) -> bool {
        &&& (self.reserve_a == 0) == (self.reserve_b == 0)
        &&& (self.reserve_b == 0) == (self.total_liquidity == 0)
    }

    /// The pool that `initialize_pool` creates: nothing held, nothing issued.
    pub open spec fn empty(mint_a: Identity, mint_b: Identity, price: u64, bump: u8) -> Pool {
        Pool { mint_a, mint_b, reserve_a: 0, reserve_b: 0, total_liquidity: 0, price, bump }
    }

    /// The reserve that a swap in the given direction pays into.
    pub open spec fn reserve_in(self, a_to_b: bool) -> u64 {
        if a_to_b {
            self.reserve_a
        } else {
            self.reserve_b
        }
    }

    /// The reserve that a swap in the given direction is paid from.
    pub open spec fn reserve_out(self, a_to_b: bool) -> u64 {
        if a_to_b {
            self.reserve_b
        } else {
            self.reserve_a
        }
    }

    /// The product of the two reserves.
    pub open spec fn product(self) -> int {
        self.reserve_a * self.reserve_b
    }

    /// The seeds of the address that the pool signs with.
    pub open spec fn spec_signer(self) -> PoolSigner {
        PoolSigner { mint_a: self.mint_a, mint_b: self.mint_b, bump: self.bump }
    }

    /// The amount that a swap of `amount_in` pays out of this pool.
    pub open spec fn output_for(self, fee_rate: u64, amount_in: u64, a_to_b: bool) -> int {
        swap_output(
            self.reserve_in(a_to_b) as int,
            self.reserve_out(a_to_b) as int,
            amount_in as int,
            fee_rate as int,
        )
    }

    /// The pool's answer to a request for a swap. The request is refused with
    /// `InvalidConfig` when the fee is not below the whole, with `InvalidPoolState`
    /// when a reserve is empty, with `SlippageExceeded` when the pool would pay less
    /// than the caller's minimum, and with `ArithmeticOverflow` when the input
    /// reserve could not hold what comes in. Otherwise the quote is the
    /// constant-product amount.
    pub open spec fn swap_quote(
        self,
        fee_rate: u64,
        amount_in: u64,
        minimum_amount_out: u64,
        a_to_b: bool,
    ) -> Result<SwapQuote, SwapError> {
        if fee_rate >= BASIS_POINTS {
            Err(SwapError::InvalidConfig)
        } else if self.reserve_in(a_to_b) == 0 || self.reserve_out(a_to_b) == 0 {
            Err(SwapError::InvalidPoolState)
        } else if self.output_for(fee_rate, amount_in, a_to_b) < minimum_amount_out {
            Err(SwapError::SlippageExceeded)
        } else if self.reserve_in(a_to_b) + amount_in > u64::MAX {
            Err(SwapError::ArithmeticOverflow)
        } else {
            Ok(
                SwapQuote {
                    a_to_b,
                    amount_in,
                    amount_out: self.output_for(fee_rate, amount_in, a_to_b) as u64,
                },
            )
        }
    }

    /// The pool once a swap has gone through: the input reserve has grown by the
    /// full amount that came in, fee included, and the output reserve has shrunk by
    /// what went out. A quote that the reserves cannot carry is refused with
    /// `ArithmeticOverflow`.
    pub open spec fn after_swap(self, quote: SwapQuote) -> Result<Pool, SwapError> {
        if self.reserve_in(quote.a_to_b) + quote.amount_in > u64::MAX || quote.amount_out
            > self.reserve_out(quote.a_to_b) {
            Err(SwapError::ArithmeticOverflow)
        } else if quote.a_to_b {
            Ok(
                Pool {
                    reserve_a: (self.reserve_a + quote.amount_in) as u64,
                    reserve_b: (self.reserve_b - quote.amount_out) as u64,
                    ..self
                },
            )
        } else {
            Ok(
                Pool {
                    reserve_b: (self.reserve_b + quote.amount_in) as u64,
                    reserve_a: (self.reserve_a - quote.amount_out) as u64,
                    ..self
                },
            )
        }
    }

    /// The shares that a deposit into this pool earns.
    pub open spec fn shares_for(self, amount_a: u64, amount_b: u64) -> int {
        shares_issued(
            amount_a as int,
            amount_b as int,
            self.total_liquidity as int,
            self.reserve_a as int,
            self.reserve_b as int,
        )
    }

    /// The pool's answer to a request for a deposit. The request is refused with
    /// `InvalidPoolState` when shares exist against an empty reserve, with
    /// `ArithmeticOverflow` when the shares to issue do not fit in 64 bits, with
    /// `InsufficientLiquidity` when they are fewer than the caller's minimum, and
    /// with `ArithmeticOverflow` when a reserve or the share count could not hold
    /// what is added.
    pub open spec fn deposit_quote(self, amount_a: u64, amount_b: u64, min_liquidity: u64) -> Result<
        DepositQuote,
        SwapError,
    > {
        if self.total_liquidity > 0 && (self.reserve_a == 0 || self.reserve_b == 0) {
            Err(SwapError::InvalidPoolState)
        } else if self.shares_for(amount_a, amount_b) > u64::MAX {
            Err(SwapError::ArithmeticOverflow)
        } else if self.shares_for(amount_a, amount_b) < min_liquidity {
            Err(SwapError::InsufficientLiquidity)
        } else if self.reserve_a + amount_a > u64::MAX || self.reserve_b + amount_b > u64::MAX
            || self.total_liquidity + self.shares_for(amount_a, amount_b) > u64::MAX {
            Err(SwapError::ArithmeticOverflow)
        } else {
            Ok(
                DepositQuote {
                    amount_a,
                    amount_b,
                    liquidity: self.shares_for(amount_a, amount_b) as u64,
                },
            )
        }
    }

    /// The pool once a deposit has gone through: each reserve has grown by exactly
    /// what was deposited, and the share count by what was issued.
    pub open spec fn after_deposit(self, quote: DepositQuote) -> Result<Pool, SwapError> {
        if self.reserve_a + quote.amount_a > u64::MAX || self.reserve_b + quote.amount_b > u64::MAX
            || self.total_liquidity + quote.liquidity > u64::MAX {
            Err(SwapError::ArithmeticOverflow)
        } else {
            Ok(
                Pool {
                    reserve_a: (self.reserve_a + quote.amount_a) as u64,
                    reserve_b: (self.reserve_b + quote.amount_b) as u64,
                    total_liquidity: (self.total_liquidity + quote.liquidity) as u64,
                    ..self
                },
            )
        }
    }

    /// A quoted swap always settles. It moves the reserves by exactly the amount
    /// that came in and the constant-product amount that went out, changes nothing
    /// else, keeps the pool well formed and balanced, and never lowers the product
    /// of the reserves; the product rises as soon as a fee is taken from an amount
    /// that is not zero.
    pub proof fn lemma_quoted_swap_settles(
        self,
        fee_rate: u64,
        amount_in: u64,
        minimum_amount_out: u64,
        a_to_b: bool,
    )
        requires
            self.swap_quote(fee_rate, amount_in, minimum_amount_out, a_to_b) is Ok,
        ensures
            ({
                let quote = self.swap_quote(fee_rate, amount_in, minimum_amount_out, a_to_b)->Ok_0;
                let after = self.after_swap(quote)->Ok_0;
                &&& quote.amount_in == amount_in
                &&& quote.amount_out == self.output_for(fee_rate, amount_in, a_to_b)
                &&& quote.amount_out >= minimum_amount_out
                &&& self.after_swap(quote) is Ok
                &&& after.reserve_in(a_to_b) == self.reserve_in(a_to_b) + amount_in
                &&& after.reserve_out(a_to_b) == self.reserve_out(a_to_b) - self.output_for(
                    fee_rate,
                    amount_in,
                    a_to_b,
                )
                &&& after.reserve_out(a_to_b) > 0
                &&& after.total_liquidity == self.total_liquidity
                &&& after.mint_a == self.mint_a && after.mint_b == self.mint_b
                &&& after.price == self.price && after.bump == self.bump
                &&& after.product() >= self.product()
                &&& fee_rate > 0 && amount_in > 0 ==> after.product() > self.product()
                &&& self.wf() ==> after.wf()
                &&& self.balanced() ==> after.balanced()
            }),
    {
        let reserve_in = self.reserve_in(a_to_b) as int;
        let reserve_out = self.reserve_out(a_to_b) as int;
        lemma_output_bounds(reserve_in, reserve_out, amount_in as int, fee_rate as int);
        lemma_product_never_falls(reserve_in, reserve_out, amount_in as int, fee_rate as int);
        let out = self.output_for(fee_rate, amount_in, a_to_b);
        // The product is written first asset times second; in this direction the
        // input side is the second.
        if !a_to_b {
            assert((reserve_out - out) * (reserve_in + amount_in) == (reserve_in + amount_in) * (
            reserve_out - out)) by (nonlinear_arith);
            assert(reserve_out * reserve_in == reserve_in * reserve_out) by (nonlinear_arith);
        }
    }

    /// A quoted deposit always settles. It adds to each reserve exactly what was
    /// deposited and to the share count exactly what was issued, changes nothing
    /// else and keeps the pool well formed. It keeps the pool balanced too, unless
    /// it is a deposit of one asset alone into a pool without shares.
    pub proof fn lemma_quoted_deposit_settles(self, amount_a: u64, amount_b: u64, min_liquidity: u64)
        requires
            self.deposit_quote(amount_a, amount_b, min_liquidity) is Ok,
        ensures
            ({
                let quote = self.deposit_quote(amount_a, amount_b, min_liquidity)->Ok_0;
                let after = self.after_deposit(quote)->Ok_0;
                &&& quote.amount_a == amount_a && quote.amount_b == amount_b
                &&& quote.liquidity == self.shares_for(amount_a, amount_b)
                &&& quote.liquidity >= min_liquidity
                &&& self.after_deposit(quote) is Ok
                &&& after.reserve_a == self.reserve_a + amount_a
                &&& after.reserve_b == self.reserve_b + amount_b
                &&& after.total_liquidity == self.total_liquidity + self.shares_for(
                    amount_a,
                    amount_b,
                )
                &&& after.mint_a == self.mint_a && after.mint_b == self.mint_b
                &&& after.price == self.price && after.bump == self.bump
                &&& self.wf() ==> after.wf()
                &&& self.balanced() && (self.total_liquidity > 0 || (amount_a == 0) == (amount_b
                    == 0)) ==> after.balanced()
            }),
    {
    }

    /// The first deposit into a pool earns the smaller of the two amounts.
    pub proof fn lemma_first_deposit(self, amount_a: u64, amount_b: u64)
        requires
            self.total_liquidity == 0,
        ensures
            self.shares_for(amount_a, amount_b) == if amount_a <= amount_b {
                amount_a
            } else {
                amount_b
            },
    {
    }

    /// The seeds of the address that the pool signs with.
    pub fn signer(&self) -> (signer: PoolSigner)
        ensures
            signer == self.spec_signer(),
    {
        PoolSigner { mint_a: self.mint_a, mint_b: self.mint_b, bump: self.bump }
    }

    /// Quotes a swap of `amount_in` in the given direction, at the given fee, and
    /// holds it against the caller's minimum. The pool does not change.
    pub fn quote_swap(&self, fee_rate: u64, amount_in: u64, minimum_amount_out: u64, a_to_b: bool) -> (r:
        Result<SwapQuote, SwapError>)
        ensures
            r == self.swap_quote(fee_rate, amount_in, minimum_amount_out, a_to_b),
            r matches Ok(quote) ==> quote.amount_out == self.output_for(
                fee_rate,
                amount_in,
                a_to_b,
            ),
    {
        let (reserve_in, reserve_out) = if a_to_b {
            (self.reserve_a, self.reserve_b)
        } else {
            (self.reserve_b, self.reserve_a)
        };
        if fee_rate >= BASIS_POINTS {
            return Err(SwapError::InvalidConfig);
        }
        if reserve_in == 0 || reserve_out == 0 {
            return Err(SwapError::InvalidPoolState);
        }
        let amount_out: u64 = match quote_swap(reserve_in, reserve_out, amount_in, fee_rate) {
            Ok(amount_out) => amount_out,
            Err(e) => {
                return Err(e);
            },
        };
        if amount_out < minimum_amount_out {
            return Err(SwapError::SlippageExceeded);
        }
        if amount_in > u64::MAX - reserve_in {
            return Err(SwapError::ArithmeticOverflow);
        }
        Ok(SwapQuote { a_to_b, amount_in, amount_out })
    }

    /// Books a swap that has gone through. A quote that the reserves cannot carry is
    /// refused with `ArithmeticOverflow`, and the pool stays as it is.
    pub fn settle_swap(&mut self, quote: &SwapQuote) -> (r: Result<(), SwapError>)
        ensures
            match old(self).after_swap(*quote) {
                Ok(after) => r is Ok && *final(self) == after,
                Err(e) => r == Err::<(), SwapError>(e) && *final(self) == *old(self),
            },
    {
        if quote.a_to_b {
            if quote.amount_in > u64::MAX - self.reserve_a || quote.amount_out > self.reserve_b {
                return Err(SwapError::ArithmeticOverflow);
            }
            self.reserve_a = self.reserve_a + quote.amount_in;
            self.reserve_b = self.reserve_b - quote.amount_out;
        } else {
            if quote.amount_in > u64::MAX - self.reserve_b || quote.amount_out > self.reserve_a {
                return Err(SwapError::ArithmeticOverflow);
            }
            self.reserve_b = self.reserve_b + quote.amount_in;
            self.reserve_a = self.reserve_a - quote.amount_out;
        }
        Ok(())
    }

    /// Counts the shares that a deposit earns and holds them against the caller's
    /// minimum. The pool does not change.
    pub fn quote_deposit(&self, amount_a: u64, amount_b: u64, min_liquidity: u64) -> (r: Result<
        DepositQuote,
        SwapError,
    >)
        ensures
            r == self.deposit_quote(amount_a, amount_b, min_liquidity),
            r matches Ok(quote) ==> quote.liquidity == self.shares_for(amount_a, amount_b),
    {
        if self.total_liquidity > 0 && (self.reserve_a == 0 || self.reserve_b == 0) {
            return Err(SwapError::InvalidPoolState);
        }
        let liquidity: u64 = match quote_liquidity(
            amount_a,
            amount_b,
            self.total_liquidity,
            self.reserve_a,
            self.reserve_b,
        ) {
            Ok(liquidity) => liquidity,
            Err(e) => {
                return Err(e);
            },
        };
        if liquidity < min_liquidity {
            return Err(SwapError::InsufficientLiquidity);
        }
        if amount_a > u64::MAX - self.reserve_a || amount_b > u64::MAX - self.reserve_b || liquidity
            > u64::MAX - self.total_liquidity {
            return Err(SwapError::ArithmeticOverflow);
        }
        Ok(DepositQuote { amount_a, amount_b, liquidity })
    }

    /// Books a deposit that has gone through. A quote that the pool's numbers cannot
    /// carry is refused with `ArithmeticOverflow`, and the pool stays as it is.
    pub fn settle_deposit(&mut self, quote: &DepositQuote) -> (r: Result<(), SwapError>)
        ensures
            match old(self).after_deposit(*quote) {
                Ok(after) => r is Ok && *final(self) == after,
                Err(e) => r == Err::<(), SwapError>(e) && *final(self) == *old(self),
            },
    {
        if quote.amount_a > u64::MAX - self.reserve_a || quote.amount_b > u64::MAX - self.reserve_b
            || quote.liquidity > u64::MAX - self.total_liquidity {
            return Err(SwapError::ArithmeticOverflow);
        }
        self.reserve_a = self.reserve_a + quote.amount_a;
        self.reserve_b = self.reserve_b + quote.amount_b;
        self.total_liquidity = self.total_liquidity + quote.liquidity;
        Ok(())
    }
}

/// The address of the token program that must own every pooled asset, as bytes.
pub open spec fn token_program_bytes() -> Seq<u8> {
    seq![
        6u8, 221u8, 246u8, 225u8, 238u8, 117u8, 143u8, 222u8, 24u8, 66u8, 93u8, 188u8, 228u8,
        108u8, 205u8, 218u8, 182u8, 26u8, 252u8, 77u8, 131u8, 185u8, 13u8, 39u8, 254u8, 189u8,
        249u8, 40u8, 216u8, 161u8, 139u8, 252u8,
    ]
}

/// The address of the token program: `spl_token_2022::id()`, which its library
/// declares as `TokenzQdBNbLqP5VEhdkAS6EPFLC1PHnBqCXEpPxuEb`. The contract gives the
/// 32 bytes that this base-58 text stands for.
#[verifier::external_body]
fn token_program_id() -> (id: Identity)
    ensures
        id@ == token_program_bytes(),
{
    let id: Pubkey = spl_token_2022::id();
    Identity { bytes: id.to_bytes() }
}

/// What `initialize_pool` works on: the record to fill, the two asset accounts and
/// the bump of the pool's address.
#[derive(Clone, Debug, PartialEq, Eq)]
pub struct InitializePool {
    pub pool: Pool,
    pub mint_a: AccountRecord,
    pub mint_b: AccountRecord,
    pub bump: u8,
}

/// Creates the pool of an asset pair, with nothing held and nothing issued.
///
/// Fails with `InvalidMint`, and changes nothing, unless both asset accounts are
/// owned by the token program.
pub fn initialize_pool(ctx: &mut InitializePool, initial_price: u64) -> (r: Result<(), SwapError>)
    requires
        old(ctx).mint_a.key != old(ctx).mint_b.key,
    ensures
        match r {
            Ok(_) => {
                &&& old(ctx).mint_a.owner@ == token_program_bytes()
                &&& old(ctx).mint_b.owner@ == token_program_bytes()
                &&& *final(ctx) == (InitializePool {
                    pool: Pool::empty(
                        old(ctx).mint_a.key,
                        old(ctx).mint_b.key,
                        initial_price,
                        old(ctx).bump,
                    ),
                    ..*old(ctx)
                })
                &&& final(ctx).pool.wf()
                &&& final(ctx).pool.balanced()
            },
            Err(e) => {
                &&& e == SwapError::InvalidMint
                &&& old(ctx).mint_a.owner@ != token_program_bytes() || old(ctx).mint_b.owner@
                    != token_program_bytes()
                &&& *final(ctx) == *old(ctx)
            },
        },
{
    let token_program: Identity = token_program_id();
    proof {
        Identity::lemma_view_determines(ctx.mint_a.owner, token_program);
        Identity::lemma_view_determines(ctx.mint_b.owner, token_program);
    }
    if ctx.mint_a.owner != token_program {
        return Err(SwapError::InvalidMint);
    }
    if ctx.mint_b.owner != token_program {
        return Err(SwapError::InvalidMint);
    }
    ctx.pool = Pool {
        mint_a: ctx.mint_a.key,
        mint_b: ctx.mint_b.key,
        reserve_a: 0,
        reserve_b: 0,
        total_liquidity: 0,
        price: initial_price,
        bump: ctx.bump,
    };
    Ok(())
}

} // verus!
