//! The arithmetic of the exchange: the fee, the constant-product quote and the number
//! of liquidity shares that a deposit earns.
//!
//! Every quantity is an unsigned 64-bit number. Products are formed in 128 bits, every
//! quotient is rounded down, and a result that does not fit in 64 bits is an error,
//! never a wrapped number.

use vstd::prelude::*;
use crate::error::SwapError;

verus! {

/// Fee rates are in basis points: this many make the whole.
pub const BASIS_POINTS: u64 = 10000;

/// What is left of `amount_in` once a fee of `fee_rate` basis points is taken.
pub open spec fn amount_after_fee(amount_in: int, fee_rate: int) -> int {
    amount_in * (BASIS_POINTS - fee_rate) / (BASIS_POINTS as int)
}

/// The constant-product quote: what a pool with the given reserves pays out for
/// `amount_in`. The fee comes off the input before the price is taken.
pub open spec fn swap_output(reserve_in: int, reserve_out: int, amount_in: int, fee_rate: int) -> int {
    let net = amount_after_fee(amount_in, fee_rate);
    net * reserve_out / (reserve_in + net)
}

/// The shares that `amount` earns when `total` shares stand against `reserve`.
pub open spec fn proportional_shares(amount: int, total: int, reserve: int) -> int {
    amount * total / reserve
}

/// The shares that a deposit of `amount_a` and `amount_b` earns: the smaller amount
/// while no share exists, afterwards the smaller of the two proportional claims.
pub open spec fn shares_issued(
    amount_a: int,
    amount_b: int,
    total: int,
    reserve_a: int,
    reserve_b: int,
) -> int {
    if total == 0 {
        vstd::math::min(amount_a, amount_b)
    } else {
        vstd::math::min(
            proportional_shares(amount_a, total, reserve_a),
            proportional_shares(amount_b, total, reserve_b),
        )
    }
}

/// The fee never adds to an amount, and takes something from every amount that is
/// not zero as soon as the rate is not zero.
pub proof fn lemma_fee_bounds(amount_in: int, fee_rate: int)
    requires
        0 <= amount_in,
        0 <= fee_rate < BASIS_POINTS,
    ensures
        0 <= amount_after_fee(amount_in, fee_rate) <= amount_in,
        fee_rate > 0 && amount_in > 0 ==> amount_after_fee(amount_in, fee_rate) < amount_in,
{
    let keep = 10000 - fee_rate;
    let gross = amount_in * keep;
    assert(0 <= gross <= amount_in * 10000) by (nonlinear_arith)
        requires
            0 <= amount_in,
            0 < keep <= 10000,
            gross == amount_in * keep,
    ;
    if fee_rate > 0 && amount_in > 0 {
        assert(gross < amount_in * 10000) by (nonlinear_arith)
            requires
                0 < amount_in,
                0 < keep < 10000,
                gross == amount_in * keep,
        ;
    }
}

/// A quote never exceeds the reserve it is paid from, and leaves something of it
/// whenever both reserves hold something.
pub proof fn lemma_output_bounds(reserve_in: int, reserve_out: int, amount_in: int, fee_rate: int)
    requires
        0 <= reserve_in,
        0 <= reserve_out,
        0 <= amount_in,
        0 <= fee_rate < BASIS_POINTS,
        reserve_in + amount_after_fee(amount_in, fee_rate) > 0,
    ensures
        0 <= swap_output(reserve_in, reserve_out, amount_in, fee_rate) <= reserve_out,
        reserve_in > 0 && reserve_out > 0 ==> swap_output(
            reserve_in,
            reserve_out,
            amount_in,
            fee_rate,
        ) < reserve_out,
{
    lemma_fee_bounds(amount_in, fee_rate);
    let net = amount_after_fee(amount_in, fee_rate);
    let den = reserve_in + net;
    let out = net * reserve_out / den;
    lemma_quotient_brackets(net * reserve_out, den);
    assert(0 <= net * reserve_out <= den * reserve_out) by (nonlinear_arith)
        requires
            0 <= net <= den,
            0 <= reserve_out,
    ;
    assert(out <= reserve_out) by (nonlinear_arith)
        requires
            den > 0,
            den * out <= den * reserve_out,
    ;
    assert(0 <= out) by (nonlinear_arith)
        requires
            den > 0,
            0 <= net * reserve_out,
            net * reserve_out < den * out + den,
    ;
    if reserve_in > 0 && reserve_out > 0 {
        assert(net * reserve_out < den * reserve_out) by (nonlinear_arith)
            requires
                0 <= net < den,
                0 < reserve_out,
        ;
        assert(out < reserve_out) by (nonlinear_arith)
            requires
                den > 0,
                den * out < den * reserve_out,
        ;
    }
}

/// Rounding down: the quotient times the divisor is the largest multiple of the
/// divisor that does not exceed the dividend.
pub proof fn lemma_quotient_brackets(x: int, d: int)
    requires
        d > 0,
    ensures
        d * (x / d) <= x < d * (x / d) + d,
{
    vstd::arithmetic::div_mod::lemma_fundamental_div_mod(x, d);
    vstd::arithmetic::div_mod::lemma_mod_bound(x, d);
}

/// The product of the reserves never falls in a swap, whatever the fee, and rises
/// as soon as a fee is taken from an amount that is not zero.
pub proof fn lemma_product_never_falls(
    reserve_in: int,
    reserve_out: int,
    amount_in: int,
    fee_rate: int,
)
    requires
        0 < reserve_in,
        0 < reserve_out,
        0 <= amount_in,
        0 <= fee_rate < BASIS_POINTS,
    ensures
        (reserve_in + amount_in) * (reserve_out - swap_output(
            reserve_in,
            reserve_out,
            amount_in,
            fee_rate,
        )) >= reserve_in * reserve_out,
        fee_rate > 0 && amount_in > 0 ==> (reserve_in + amount_in) * (reserve_out - swap_output(
            reserve_in,
            reserve_out,
            amount_in,
            fee_rate,
        )) > reserve_in * reserve_out,
{
    lemma_fee_bounds(amount_in, fee_rate);
    lemma_output_bounds(reserve_in, reserve_out, amount_in, fee_rate);
    let net = amount_after_fee(amount_in, fee_rate);
    let den = reserve_in + net;
    let out = net * reserve_out / den;
    let rest = reserve_out - out;
    lemma_quotient_brackets(net * reserve_out, den);
    // What stays in the pool, priced at the fee-reduced input, covers the old product.
    assert(den * rest >= reserve_in * reserve_out) by (nonlinear_arith)
        requires
            den == reserve_in + net,
            rest == reserve_out - out,
            den * out <= net * reserve_out,
    ;
    assert((reserve_in + amount_in) * rest >= den * rest) by (nonlinear_arith)
        requires
            den == reserve_in + net,
            net <= amount_in,
            0 <= rest,
    ;
    if fee_rate > 0 && amount_in > 0 {
        assert((reserve_in + amount_in) * rest > den * rest) by (nonlinear_arith)
            requires
                den == reserve_in + net,
                net < amount_in,
                0 < rest,
        ;
    }
}

/// Takes the fee off `amount_in`.
///
/// Fails with `InvalidConfig` when the rate is not below the whole.
pub fn net_of_fee(amount_in: u64, fee_rate: u64) -> (r: Result<u64, SwapError>)
    ensures
        match r {
            Ok(net) => fee_rate < BASIS_POINTS && net == amount_after_fee(
                amount_in as int,
                fee_rate as int,
            ),
            Err(e) => e == SwapError::InvalidConfig && fee_rate >= BASIS_POINTS,
        },
{
    if fee_rate >= BASIS_POINTS {
        return Err(SwapError::InvalidConfig);
    }
    let keep: u128 = (BASIS_POINTS - fee_rate) as u128;
    let wide: u128 = amount_in as u128;
    proof {
        lemma_fee_bounds(amount_in as int, fee_rate as int);
        assert(wide * keep <= 0xffff_ffff_ffff_ffff * 10000) by (nonlinear_arith)
            requires
                0 <= wide <= 0xffff_ffff_ffff_ffff,
                0 <= keep <= 10000,
        ;
    }
    let net: u128 = wide * keep / (BASIS_POINTS as u128);
    Ok(net as u64)
}

/// Quotes a swap of `amount_in` against the given reserves.
///
/// Fails with `InvalidConfig` when the rate is not below the whole, and with
/// `DivisionByZero` when the input reserve and the fee-reduced input are both zero.
pub fn quote_swap(reserve_in: u64, reserve_out: u64, amount_in: u64, fee_rate: u64) -> (r: Result<
    u64,
    SwapError,
>)
    ensures
        match r {
            Ok(out) => {
                &&& fee_rate < BASIS_POINTS
                &&& reserve_in + amount_after_fee(amount_in as int, fee_rate as int) > 0
                &&& out == swap_output(
                    reserve_in as int,
                    reserve_out as int,
                    amount_in as int,
                    fee_rate as int,
                )
                &&& out <= reserve_out
            },
            Err(e) => {
                ||| e == SwapError::InvalidConfig && fee_rate >= BASIS_POINTS
                ||| e == SwapError::DivisionByZero && fee_rate < BASIS_POINTS && reserve_in
                    + amount_after_fee(amount_in as int, fee_rate as int) == 0
            },
        },
{
    let net: u64 = match net_of_fee(amount_in, fee_rate) {
        Ok(net) => net,
        Err(e) => {
            return Err(e);
        },
    };
    let den: u128 = reserve_in as u128 + net as u128;
    if den == 0 {
        return Err(SwapError::DivisionByZero);
    }
    let wide_net: u128 = net as u128;
    let wide_out: u128 = reserve_out as u128;
    proof {
        lemma_output_bounds(
            reserve_in as int,
            reserve_out as int,
            amount_in as int,
            fee_rate as int,
        );
        assert(wide_net * wide_out <= 0xffff_ffff_ffff_ffff * 0xffff_ffff_ffff_ffff)
            by (nonlinear_arith)
            requires
                0 <= wide_net <= 0xffff_ffff_ffff_ffff,
                0 <= wide_out <= 0xffff_ffff_ffff_ffff,
        ;
    }
    let out: u128 = wide_net * wide_out / den;
    Ok(out as u64)
}

/// Counts the shares that a deposit earns.
///
/// While no share exists the reserves play no part. Afterwards the call fails with
/// `DivisionByZero` when a reserve is zero, and with `ArithmeticOverflow` when the
/// number of shares does not fit in 64 bits.
pub fn quote_liquidity(
    amount_a: u64,
    amount_b: u64,
    total_liquidity: u64,
    reserve_a: u64,
    reserve_b: u64,
) -> (r: Result<u64, SwapError>)
    ensures
        match r {
            Ok(shares) => {
                &&& total_liquidity > 0 ==> reserve_a > 0 && reserve_b > 0
                &&& shares == shares_issued(
                    amount_a as int,
                    amount_b as int,
                    total_liquidity as int,
                    reserve_a as int,
                    reserve_b as int,
                )
            },
            Err(e) => {
                ||| e == SwapError::DivisionByZero && total_liquidity > 0 && (reserve_a == 0
                    || reserve_b == 0)
                ||| e == SwapError::ArithmeticOverflow && total_liquidity > 0 && reserve_a > 0
                    && reserve_b > 0 && shares_issued(
                    amount_a as int,
                    amount_b as int,
                    total_liquidity as int,
                    reserve_a as int,
                    reserve_b as int,
                ) > u64::MAX
            },
        },
{
    if total_liquidity == 0 {
        return Ok(if amount_a <= amount_b { amount_a } else { amount_b });
    }
    if reserve_a == 0 || reserve_b == 0 {
        return Err(SwapError::DivisionByZero);
    }
    let total: u128 = total_liquidity as u128;
    let wide_a: u128 = amount_a as u128;
    let wide_b: u128 = amount_b as u128;
    proof {
        assert(wide_a * total <= 0xffff_ffff_ffff_ffff * 0xffff_ffff_ffff_ffff)
            by (nonlinear_arith)
            requires
                0 <= wide_a <= 0xffff_ffff_ffff_ffff,
                0 <= total <= 0xffff_ffff_ffff_ffff,
        ;
        assert(wide_b * total <= 0xffff_ffff_ffff_ffff * 0xffff_ffff_ffff_ffff)
            by (nonlinear_arith)
            requires
                0 <= wide_b <= 0xffff_ffff_ffff_ffff,
                0 <= total <= 0xffff_ffff_ffff_ffff,
        ;
    }
    let claim_a: u128 = wide_a * total / (reserve_a as u128);
    let claim_b: u128 = wide_b * total / (reserve_b as u128);
    let shares: u128 = if claim_a <= claim_b { claim_a } else { claim_b };
    if shares > u64::MAX as u128 {
        return Err(SwapError::ArithmeticOverflow);
    }
    Ok(shares as u64)
}

} // verus!
