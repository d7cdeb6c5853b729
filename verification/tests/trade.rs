use spl_token_2022::extension::transfer_hook::TransferHook;
use spl_token_2022::extension::{
    BaseStateWithExtensionsMut, ExtensionType, StateWithExtensionsMut,
};
use spl_token_2022::solana_program::program_option::COption;
use spl_token_2022::solana_program::program_pack::Pack;
use spl_token_2022::solana_program::pubkey::Pubkey;
use spl_token_2022::state::Mint;
use token22_swap::account::AccountRecord;
use token22_swap::error::SwapError;
use token22_swap::gateway::{Authority, GatewayOutcome, PoolSigner, TransferRequest};
use token22_swap::identity::Identity;
use token22_swap::pool::{Pool, SwapQuote};
use token22_swap::registry::Config;
use token22_swap::trade::{swap, swap_call, swap_step, Swap, SwapStage, SwapTicket};

fn id(n: u8) -> Identity {
    Identity { bytes: [n; 32] }
}

fn base_mint() -> Mint {
    Mint {
        mint_authority: COption::None,
        supply: 1_000_000,
        decimals: 6,
        is_initialized: true,
        freeze_authority: COption::None,
    }
}

fn plain_mint_data() -> Vec<u8> {
    let mut data = vec![0u8; Mint::LEN];
    Mint::pack(base_mint(), &mut data).unwrap();
    data
}

fn hooked_mint_data(program: Identity) -> Vec<u8> {
    let len =
        ExtensionType::try_calculate_account_len::<Mint>(&[ExtensionType::TransferHook]).unwrap();
    let mut data = vec![0u8; len];
    let mut state = StateWithExtensionsMut::<Mint>::unpack_uninitialized(&mut data).unwrap();
    let extension = state.init_extension::<TransferHook>(true).unwrap();
    extension.program_id = Some(Pubkey::new_from_array(program.bytes)).try_into().unwrap();
    state.base = base_mint();
    state.pack_base();
    state.init_account_type().unwrap();
    data
}

fn mint(key: u8, data: Vec<u8>) -> AccountRecord {
    AccountRecord { key: id(key), owner: Identity { bytes: spl_token_2022::id().to_bytes() }, data }
}

fn context(reserve_a: u64, reserve_b: u64, fee_rate: u64, hooks: Vec<Identity>) -> Swap {
    Swap {
        pool: Pool {
            mint_a: id(11),
            mint_b: id(12),
            reserve_a,
            reserve_b,
            total_liquidity: 1_000,
            price: 1,
            bump: 250,
        },
        config: Config { admin: id(1), fee_rate, whitelisted_hooks: hooks, bump: 254 },
        mint_a: mint(11, plain_mint_data()),
        mint_b: mint(12, plain_mint_data()),
        pool_token_a: id(21),
        pool_token_b: id(22),
        user_token_a: id(31),
        user_token_b: id(32),
        user: id(40),
    }
}

fn signer() -> PoolSigner {
    PoolSigner { mint_a: id(11), mint_b: id(12), bump: 250 }
}

#[test]
fn swap_runs_through_both_movements() {
    let mut ctx = context(1_000, 1_000, 25, vec![]);
    let start = ctx.clone();
    let ticket = swap(&ctx, 100, 90, true).unwrap();
    assert_eq!(
        ticket,
        SwapTicket {
            quote: SwapQuote { a_to_b: true, amount_in: 100, amount_out: 90 },
            stage: SwapStage::Deposit,
        }
    );
    assert_eq!(
        swap_call(&ctx, &ticket),
        TransferRequest {
            from: id(31),
            to: id(21),
            authority: Authority::User(id(40)),
            asset: id(11),
            amount: 100,
        }
    );
    let ticket = swap_step(&mut ctx, ticket, GatewayOutcome::Completed).unwrap().unwrap();
    assert_eq!(ticket.stage, SwapStage::Payout);
    assert_eq!(ctx, start);
    assert_eq!(
        swap_call(&ctx, &ticket),
        TransferRequest {
            from: id(22),
            to: id(32),
            authority: Authority::Pool(signer()),
            asset: id(12),
            amount: 90,
        }
    );
    assert_eq!(swap_step(&mut ctx, ticket, GatewayOutcome::Completed), Ok(None));
    assert_eq!(ctx.pool.reserve_a, 1_100);
    assert_eq!(ctx.pool.reserve_b, 910);
    assert_eq!(ctx.pool.total_liquidity, 1_000);
    let mut expected = start;
    expected.pool.reserve_a = 1_100;
    expected.pool.reserve_b = 910;
    assert_eq!(ctx, expected);
}

#[test]
fn swap_in_the_other_direction() {
    let mut ctx = context(1_000, 4_000, 25, vec![]);
    let ticket = swap(&ctx, 100, 0, false).unwrap();
    assert_eq!(ticket.quote, SwapQuote { a_to_b: false, amount_in: 100, amount_out: 24 });
    assert_eq!(
        swap_call(&ctx, &ticket),
        TransferRequest {
            from: id(32),
            to: id(22),
            authority: Authority::User(id(40)),
            asset: id(12),
            amount: 100,
        }
    );
    let ticket = swap_step(&mut ctx, ticket, GatewayOutcome::Completed).unwrap().unwrap();
    assert_eq!(
        swap_call(&ctx, &ticket),
        TransferRequest {
            from: id(21),
            to: id(31),
            authority: Authority::Pool(signer()),
            asset: id(11),
            amount: 24,
        }
    );
    assert_eq!(swap_step(&mut ctx, ticket, GatewayOutcome::Completed), Ok(None));
    assert_eq!((ctx.pool.reserve_a, ctx.pool.reserve_b), (976, 4_100));
}

#[test]
fn failed_movement_ends_the_swap_and_changes_nothing() {
    let mut ctx = context(1_000, 1_000, 25, vec![]);
    let start = ctx.clone();
    let ticket = swap(&ctx, 100, 0, true).unwrap();
    assert_eq!(swap_step(&mut ctx, ticket, GatewayOutcome::Failed), Err(SwapError::TransferFailed));
    assert_eq!(ctx, start);
    let paid = swap_step(&mut ctx, ticket, GatewayOutcome::Completed).unwrap().unwrap();
    assert_eq!(swap_step(&mut ctx, paid, GatewayOutcome::Failed), Err(SwapError::TransferFailed));
    assert_eq!(ctx, start);
}

#[test]
fn minimum_above_the_quote_is_slippage_and_changes_nothing() {
    let ctx = context(1_000, 1_000, 25, vec![]);
    let start = ctx.clone();
    assert_eq!(swap(&ctx, 100, 91, true), Err(SwapError::SlippageExceeded));
    assert_eq!(swap(&ctx, 100, 91, false), Err(SwapError::SlippageExceeded));
    assert_eq!(swap(&ctx, 100, u64::MAX, true), Err(SwapError::SlippageExceeded));
    assert_eq!(ctx, start);
    assert!(swap(&ctx, 100, 90, true).is_ok());
}

#[test]
fn input_near_the_largest_number_is_an_overflow() {
    let ctx = context(1_000, 1_000, 25, vec![]);
    assert_eq!(swap(&ctx, u64::MAX, 0, true), Err(SwapError::ArithmeticOverflow));
    assert_eq!(swap(&ctx, u64::MAX - 1, 0, false), Err(SwapError::ArithmeticOverflow));
    assert_eq!(swap(&ctx, u64::MAX - 999, 999, true), Err(SwapError::ArithmeticOverflow));
}

#[test]
fn swap_against_an_empty_pool_is_refused() {
    let ctx = context(0, 0, 25, vec![]);
    assert_eq!(swap(&ctx, 100, 0, true), Err(SwapError::InvalidPoolState));
    assert_eq!(swap(&ctx, 0, 0, false), Err(SwapError::InvalidPoolState));
}

#[test]
fn swap_under_an_invalid_fee_is_refused() {
    let ctx = context(1_000, 1_000, 10_000, vec![]);
    assert_eq!(swap(&ctx, 100, 0, true), Err(SwapError::InvalidConfig));
}

#[test]
fn hooked_assets_need_an_approved_program() {
    let mut ctx = context(1_000, 1_000, 25, vec![id(7)]);
    ctx.mint_a = mint(11, hooked_mint_data(id(7)));
    assert!(swap(&ctx, 100, 0, true).is_ok());
    assert!(swap(&ctx, 100, 0, false).is_ok());
    ctx.mint_b = mint(12, hooked_mint_data(id(8)));
    assert_eq!(swap(&ctx, 100, 0, true), Err(SwapError::UnauthorizedHook));
    assert_eq!(swap(&ctx, 100, 0, false), Err(SwapError::UnauthorizedHook));
    ctx.config.whitelisted_hooks.push(id(8));
    assert!(swap(&ctx, 100, 0, true).is_ok());
    ctx.config.whitelisted_hooks.clear();
    assert_eq!(swap(&ctx, 100, 0, true), Err(SwapError::UnauthorizedHook));
}

#[test]
fn assets_are_judged_in_the_order_of_the_direction() {
    let mut ctx = context(1_000, 1_000, 25, vec![]);
    ctx.mint_a = mint(11, vec![0xff; 200]);
    ctx.mint_b = mint(12, hooked_mint_data(id(8)));
    assert_eq!(swap(&ctx, 100, 0, true), Err(SwapError::InvalidMint));
    assert_eq!(swap(&ctx, 100, 0, false), Err(SwapError::UnauthorizedHook));
}

#[test]
fn assets_are_judged_before_the_pool_is_asked() {
    let mut ctx = context(0, 0, 10_000, vec![]);
    ctx.mint_b = mint(12, hooked_mint_data(id(8)));
    assert_eq!(swap(&ctx, 100, u64::MAX, true), Err(SwapError::UnauthorizedHook));
    ctx.mint_b = mint(12, plain_mint_data());
    assert_eq!(swap(&ctx, 100, u64::MAX, true), Err(SwapError::InvalidConfig));
}

#[test]
fn swap_step_with_a_ticket_that_the_pool_cannot_carry() {
    let mut ctx = context(1_000, 1_000, 25, vec![]);
    let start = ctx.clone();
    let forged = SwapTicket {
        quote: SwapQuote { a_to_b: true, amount_in: 1, amount_out: 5_000 },
        stage: SwapStage::Payout,
    };
    assert_eq!(
        swap_step(&mut ctx, forged, GatewayOutcome::Completed),
        Err(SwapError::ArithmeticOverflow)
    );
    assert_eq!(ctx, start);
}
