use token22_swap::error::SwapError;
use token22_swap::gateway::{
    Authority, GatewayCall, GatewayOutcome, MintRequest, PoolSigner, TransferRequest,
};
use token22_swap::identity::Identity;
use token22_swap::liquidity::{
    add_liquidity, add_liquidity_call, add_liquidity_step, AddLiquidity, DepositStage,
    DepositTicket,
};
use token22_swap::pool::{DepositQuote, Pool};

fn id(n: u8) -> Identity {
    Identity { bytes: [n; 32] }
}

fn context(reserve_a: u64, reserve_b: u64, total_liquidity: u64) -> AddLiquidity {
    AddLiquidity {
        pool: Pool {
            mint_a: id(11),
            mint_b: id(12),
            reserve_a,
            reserve_b,
            total_liquidity,
            price: 1,
            bump: 250,
        },
        mint_a: id(11),
        mint_b: id(12),
        pool_token_a: id(21),
        pool_token_b: id(22),
        liquidity_mint: id(23),
        user_token_a: id(31),
        user_token_b: id(32),
        user_liquidity_token: id(33),
        user: id(40),
    }
}

fn run_to_the_end(ctx: &mut AddLiquidity, first: DepositTicket) -> Vec<GatewayCall> {
    let mut calls = vec![];
    let mut ticket = Some(first);
    while let Some(open) = ticket {
        calls.push(add_liquidity_call(ctx, &open));
        ticket = add_liquidity_step(ctx, open, GatewayOutcome::Completed).unwrap();
    }
    calls
}

#[test]
fn first_deposit_of_a_hundred_and_fifty() {
    let mut ctx = context(0, 0, 0);
    let ticket = add_liquidity(&ctx, 100, 50, 0).unwrap();
    assert_eq!(
        ticket,
        DepositTicket {
            quote: DepositQuote { amount_a: 100, amount_b: 50, liquidity: 50 },
            stage: DepositStage::FirstAsset,
        }
    );
    let calls = run_to_the_end(&mut ctx, ticket);
    assert_eq!(ctx.pool.total_liquidity, 50);
    assert_eq!(ctx.pool.reserve_a, 100);
    assert_eq!(ctx.pool.reserve_b, 50);
    assert_eq!(
        calls,
        vec![
            GatewayCall::Transfer(TransferRequest {
                from: id(31),
                to: id(21),
                authority: Authority::User(id(40)),
                asset: id(11),
                amount: 100,
            }),
            GatewayCall::Transfer(TransferRequest {
                from: id(32),
                to: id(22),
                authority: Authority::User(id(40)),
                asset: id(12),
                amount: 50,
            }),
            GatewayCall::MintTo(MintRequest {
                mint: id(23),
                to: id(33),
                authority: PoolSigner { mint_a: id(11), mint_b: id(12), bump: 250 },
                amount: 50,
            }),
        ]
    );
}

#[test]
fn deposit_adds_exactly_what_was_deposited() {
    let cases: [(u64, u64, u64, u64, u64, u64); 5] = [
        (0, 0, 0, 100, 50, 50),
        (100, 50, 50, 30, 30, 15),
        (100, 50, 50, 0, 0, 0),
        (1_000, 1_000, 10, 99, 5_000, 0),
        (7, 9, 4, u64::MAX - 7, u64::MAX - 9, 0),
    ];
    for (reserve_a, reserve_b, total, amount_a, amount_b, minimum) in cases {
        let mut ctx = context(reserve_a, reserve_b, total);
        let start = ctx;
        match add_liquidity(&ctx, amount_a, amount_b, minimum) {
            Ok(ticket) => {
                let issued = ticket.quote.liquidity;
                run_to_the_end(&mut ctx, ticket);
                let mut expected = start;
                expected.pool.reserve_a = reserve_a + amount_a;
                expected.pool.reserve_b = reserve_b + amount_b;
                expected.pool.total_liquidity = total + issued;
                assert_eq!(ctx, expected);
            }
            Err(e) => {
                assert_eq!(e, SwapError::ArithmeticOverflow);
                assert_eq!(ctx, start);
            }
        }
    }
}

#[test]
fn imbalanced_deposit_is_taken_in_full_and_credited_by_the_smaller_claim() {
    let mut ctx = context(100, 50, 50);
    let ticket = add_liquidity(&ctx, 30, 30, 0).unwrap();
    assert_eq!(ticket.quote.liquidity, 15);
    run_to_the_end(&mut ctx, ticket);
    assert_eq!(
        (ctx.pool.reserve_a, ctx.pool.reserve_b, ctx.pool.total_liquidity),
        (130, 80, 65)
    );
}

#[test]
fn pool_changes_only_after_the_shares_are_issued() {
    let mut ctx = context(100, 50, 50);
    let start = ctx;
    let first = add_liquidity(&ctx, 30, 30, 15).unwrap();
    assert_eq!(ctx, start);
    let second = add_liquidity_step(&mut ctx, first, GatewayOutcome::Completed).unwrap().unwrap();
    assert_eq!(second.stage, DepositStage::SecondAsset);
    assert_eq!(second.quote, first.quote);
    assert_eq!(ctx, start);
    let shares = add_liquidity_step(&mut ctx, second, GatewayOutcome::Completed).unwrap().unwrap();
    assert_eq!(shares.stage, DepositStage::Shares);
    assert_eq!(ctx, start);
    assert_eq!(add_liquidity_step(&mut ctx, shares, GatewayOutcome::Completed), Ok(None));
    assert_eq!(ctx.pool.reserve_a, 130);
}

#[test]
fn failed_request_ends_the_deposit_and_changes_nothing() {
    let mut ctx = context(100, 50, 50);
    let start = ctx;
    let first = add_liquidity(&ctx, 30, 30, 15).unwrap();
    let second = DepositTicket { quote: first.quote, stage: DepositStage::SecondAsset };
    let shares = DepositTicket { quote: first.quote, stage: DepositStage::Shares };
    for ticket in [first, second, shares] {
        assert_eq!(
            add_liquidity_step(&mut ctx, ticket, GatewayOutcome::Failed),
            Err(SwapError::TransferFailed)
        );
        assert_eq!(ctx, start);
    }
}

#[test]
fn deposit_below_the_asked_shares_is_refused() {
    let ctx = context(100, 50, 50);
    assert_eq!(add_liquidity(&ctx, 30, 30, 16), Err(SwapError::InsufficientLiquidity));
    let empty = context(0, 0, 0);
    assert_eq!(add_liquidity(&empty, 100, 50, 51), Err(SwapError::InsufficientLiquidity));
}

#[test]
fn deposit_into_a_contradictory_pool_is_refused() {
    assert_eq!(add_liquidity(&context(0, 50, 50), 1, 1, 0), Err(SwapError::InvalidPoolState));
}

#[test]
fn deposit_that_does_not_fit_is_refused() {
    assert_eq!(
        add_liquidity(&context(1, 1, 4), 1 << 63, 1 << 63, 0),
        Err(SwapError::ArithmeticOverflow)
    );
    assert_eq!(
        add_liquidity(&context(u64::MAX, 1, 1), 1, 1, 0),
        Err(SwapError::ArithmeticOverflow)
    );
}

#[test]
fn deposit_step_with_a_ticket_that_the_pool_cannot_carry() {
    let mut ctx = context(100, 50, 50);
    let start = ctx;
    let forged = DepositTicket {
        quote: DepositQuote { amount_a: u64::MAX, amount_b: 1, liquidity: 1 },
        stage: DepositStage::Shares,
    };
    assert_eq!(
        add_liquidity_step(&mut ctx, forged, GatewayOutcome::Completed),
        Err(SwapError::ArithmeticOverflow)
    );
    assert_eq!(ctx, start);
}
