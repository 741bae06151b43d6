use amm_core::error::AmmError;
use amm_core::initialize::initialize;
use amm_core::state::Config;
use amm_core::state::Pool;
use amm_core::state::UserAccounts;

fn pool(fee: u16, vault_x: u64, vault_y: u64, lp_supply: u64) -> Pool {
    Pool {
        config: Config {
            seed: 42,
            authority: Some(9),
            mint_x: 1,
            mint_y: 2,
            fee,
            locked: false,
            config_bump: 254,
            lp_bump: 253,
        },
        vault_x,
        vault_y,
        lp_supply,
    }
}

fn locked(mut p: Pool) -> Pool {
    p.config.locked = true;
    p
}

fn user() -> UserAccounts {
    UserAccounts { token_x: 10_000_000, token_y: 10_000_000, token_lp: 1_000 }
}

#[test]
fn initialize_creates_empty_unlocked_pool() {
    let p = initialize(7, 30, None, 11, 22, 254, 251);
    assert_eq!(p.config.seed, 7);
    assert_eq!(p.config.fee, 30);
    assert_eq!(p.config.authority, None);
    assert_eq!(p.config.mint_x, 11);
    assert_eq!(p.config.mint_y, 22);
    assert!(!p.config.locked);
    assert_eq!(p.config.config_bump, 254);
    assert_eq!(p.config.lp_bump, 251);
    assert_eq!((p.vault_x, p.vault_y, p.lp_supply), (0, 0, 0));
}

#[test]
fn bootstrap_deposit_sets_reserves_and_supply_exactly() {
    let mut p = pool(30, 0, 0, 0);
    let mut u = user();
    assert_eq!(p.deposit(&mut u, 123, 1_000, 2_000), Ok(()));
    assert_eq!(p.vault_x, 1_000);
    assert_eq!(p.vault_y, 2_000);
    assert_eq!(p.lp_supply, 123);
    assert_eq!(u.token_x, 10_000_000 - 1_000);
    assert_eq!(u.token_y, 10_000_000 - 2_000);
    assert_eq!(u.token_lp, 1_000 + 123);
}

#[test]
fn deposit_ten_percent_of_supply_succeeds() {
    let mut p = pool(30, 1_000_000, 2_000_000, 500_000);
    let mut u = user();
    assert_eq!(p.deposit(&mut u, 50_000, 110_000, 210_000), Ok(()));
    assert_eq!(p.vault_x, 1_100_000);
    assert_eq!(p.vault_y, 2_200_000);
    assert_eq!(p.lp_supply, 550_000);
    assert_eq!(u.token_x, 10_000_000 - 100_000);
    assert_eq!(u.token_y, 10_000_000 - 200_000);
    assert_eq!(u.token_lp, 1_000 + 50_000);
}

#[test]
fn deposit_slippage_ceiling_rejects_and_mutates_nothing() {
    let mut p = pool(30, 1_000_000, 2_000_000, 500_000);
    let mut u = user();
    let (p0, u0) = (p, u);
    assert_eq!(
        p.deposit(&mut u, 50_000, 90_000, 210_000),
        Err(AmmError::SlippageExceeded)
    );
    assert_eq!(p, p0);
    assert_eq!(u, u0);
}

#[test]
fn deposit_at_exact_ceilings_succeeds() {
    let mut p = pool(30, 1_000_000, 2_000_000, 500_000);
    let mut u = user();
    assert_eq!(p.deposit(&mut u, 50_000, 100_000, 200_000), Ok(()));
    assert_eq!((p.vault_x, p.vault_y, p.lp_supply), (1_100_000, 2_200_000, 550_000));
}

#[test]
fn swap_at_exact_minimum_succeeds() {
    let mut p = pool(30, 1_000_000, 2_000_000, 500_000);
    let mut u = user();
    assert_eq!(p.swap(&mut u, true, 10_000, 19_744), Ok(()));
    assert_eq!(u.token_y, 10_000_000 + 19_744);
}

#[test]
fn swap_fee_thirty_bps_pays_out_exactly() {
    let mut p = pool(30, 1_000_000, 2_000_000, 500_000);
    let mut u = user();
    assert_eq!(p.swap(&mut u, true, 10_000, 0), Ok(()));
    assert_eq!(p.vault_x, 1_010_000);
    assert_eq!(p.vault_y, 2_000_000 - 19_744);
    assert_eq!(p.lp_supply, 500_000);
    assert_eq!(u.token_x, 10_000_000 - 10_000);
    assert_eq!(u.token_y, 10_000_000 + 19_744);
    assert_eq!(u.token_lp, 1_000);
}

#[test]
fn swap_supplying_second_asset_draws_on_first_vault() {
    let mut p = pool(30, 1_000_000, 2_000_000, 500_000);
    let mut u = user();
    // effective_in = 19_940; out = 1_000_000 - floor(2e12 / 2_019_940) = 9_872
    assert_eq!(p.swap(&mut u, false, 20_000, 9_872), Ok(()));
    assert_eq!(p.vault_x, 1_000_000 - 9_872);
    assert_eq!(p.vault_y, 2_020_000);
    assert_eq!(u.token_x, 10_000_000 + 9_872);
    assert_eq!(u.token_y, 10_000_000 - 20_000);
}

#[test]
fn swap_on_locked_pool_rejects_and_mutates_nothing() {
    let mut p = locked(pool(30, 1_000_000, 2_000_000, 500_000));
    let mut u = user();
    let (p0, u0) = (p, u);
    assert_eq!(p.swap(&mut u, true, 10_000, 0), Err(AmmError::PoolLocked));
    assert_eq!(p, p0);
    assert_eq!(u, u0);
}

#[test]
fn deposit_on_locked_pool_rejects_and_mutates_nothing() {
    let mut p = locked(pool(30, 1_000_000, 2_000_000, 500_000));
    let mut u = user();
    let (p0, u0) = (p, u);
    assert_eq!(
        p.deposit(&mut u, 50_000, 110_000, 210_000),
        Err(AmmError::PoolLocked)
    );
    assert_eq!(p, p0);
    assert_eq!(u, u0);
}

#[test]
fn zero_amount_deposit_always_rejects_unchanged() {
    // regardless of pool state: empty, funded, extreme fee, even locked
    for mut p in [
        pool(30, 0, 0, 0),
        pool(0, 5, 5, 5),
        pool(10_000, 1_000_000, 2_000_000, 500_000),
        locked(pool(30, 1_000_000, 2_000_000, 500_000)),
    ] {
        let mut u = user();
        let (p0, u0) = (p, u);
        assert_eq!(p.deposit(&mut u, 0, 100, 100), Err(AmmError::InvalidAmount));
        assert_eq!(p, p0);
        assert_eq!(u, u0);
    }
}

#[test]
fn zero_amount_swap_always_rejects_unchanged() {
    // regardless of pool state: empty, funded, extreme fee, even locked
    for mut p in [
        pool(30, 0, 0, 0),
        pool(0, 5, 5, 5),
        pool(10_000, 1_000_000, 2_000_000, 500_000),
        locked(pool(30, 1_000_000, 2_000_000, 500_000)),
    ] {
        let mut u = user();
        let (p0, u0) = (p, u);
        assert_eq!(p.swap(&mut u, true, 0, 0), Err(AmmError::InvalidAmount));
        assert_eq!(p, p0);
        assert_eq!(u, u0);
    }
}

#[test]
fn deposit_atomic_when_first_transfer_fails() {
    let mut p = pool(30, 1_000_000, 2_000_000, 500_000);
    let mut u = UserAccounts { token_x: 99_999, token_y: 10_000_000, token_lp: 0 };
    let (p0, u0) = (p, u);
    assert_eq!(
        p.deposit(&mut u, 50_000, 110_000, 210_000),
        Err(AmmError::TransferFailed)
    );
    assert_eq!(p, p0);
    assert_eq!(u, u0);
}

#[test]
fn deposit_atomic_when_second_transfer_fails() {
    let mut p = pool(30, 1_000_000, 2_000_000, 500_000);
    let mut u = UserAccounts { token_x: 10_000_000, token_y: 199_999, token_lp: 0 };
    let (p0, u0) = (p, u);
    assert_eq!(
        p.deposit(&mut u, 50_000, 110_000, 210_000),
        Err(AmmError::TransferFailed)
    );
    assert_eq!(p, p0);
    assert_eq!(u, u0);
}

#[test]
fn deposit_atomic_when_mint_fails() {
    let mut p = pool(30, 1_000_000, 2_000_000, 500_000);
    let mut u = UserAccounts { token_x: 10_000_000, token_y: 10_000_000, token_lp: u64::MAX };
    let (p0, u0) = (p, u);
    assert_eq!(
        p.deposit(&mut u, 50_000, 110_000, 210_000),
        Err(AmmError::MintFailed)
    );
    assert_eq!(p, p0);
    assert_eq!(u, u0);
}

#[test]
fn swap_atomic_when_input_transfer_fails() {
    let mut p = pool(30, 1_000_000, 2_000_000, 500_000);
    let mut u = UserAccounts { token_x: 9_999, token_y: 0, token_lp: 0 };
    let (p0, u0) = (p, u);
    assert_eq!(p.swap(&mut u, true, 10_000, 0), Err(AmmError::TransferFailed));
    assert_eq!(p, p0);
    assert_eq!(u, u0);
}

#[test]
fn swap_atomic_when_payout_transfer_fails() {
    let mut p = pool(30, 1_000_000, 2_000_000, 500_000);
    let mut u = UserAccounts { token_x: 10_000_000, token_y: u64::MAX, token_lp: 0 };
    let (p0, u0) = (p, u);
    assert_eq!(p.swap(&mut u, true, 10_000, 0), Err(AmmError::TransferFailed));
    assert_eq!(p, p0);
    assert_eq!(u, u0);
}

#[test]
fn swap_dust_output_rejects_unchanged() {
    // a full fee leaves the curve no effective input; the output rounds to
    // zero and the trade is refused rather than silently charging a transfer
    let mut p = pool(10_000, 5, 5, 5);
    let mut u = user();
    let (p0, u0) = (p, u);
    assert_eq!(p.swap(&mut u, true, 3, 0), Err(AmmError::InvalidAmount));
    assert_eq!(p, p0);
    assert_eq!(u, u0);
}

#[test]
fn swap_min_out_floor_rejects_unchanged() {
    let mut p = pool(30, 1_000_000, 2_000_000, 500_000);
    let mut u = user();
    let (p0, u0) = (p, u);
    assert_eq!(
        p.swap(&mut u, true, 10_000, 19_745),
        Err(AmmError::SlippageExceeded)
    );
    assert_eq!(p, p0);
    assert_eq!(u, u0);
}

#[test]
fn swap_empty_pool_divides_by_zero_unchanged() {
    let mut p = pool(10_000, 0, 5, 5);
    let mut u = user();
    let (p0, u0) = (p, u);
    assert_eq!(p.swap(&mut u, true, 3, 0), Err(AmmError::DivisionError));
    assert_eq!(p, p0);
    assert_eq!(u, u0);
}

#[test]
fn deposit_zero_supply_nonempty_vault_divides_by_zero() {
    // not a bootstrap (one vault holds funds), yet nothing to prorate against
    let mut p = pool(30, 5, 0, 0);
    let mut u = user();
    let (p0, u0) = (p, u);
    assert_eq!(p.deposit(&mut u, 10, 100, 100), Err(AmmError::DivisionError));
    assert_eq!(p, p0);
    assert_eq!(u, u0);
}

#[test]
fn deposit_overflowing_leg_reports_arithmetic_error() {
    let mut p = pool(30, u64::MAX, 1, 1);
    let mut u = user();
    let (p0, u0) = (p, u);
    assert_eq!(
        p.deposit(&mut u, 2, u64::MAX, u64::MAX),
        Err(AmmError::ArithmeticOverflow)
    );
    assert_eq!(p, p0);
    assert_eq!(u, u0);
}

#[test]
fn product_never_decreases_across_fee_swaps() {
    let mut p = pool(30, 1_000_000, 2_000_000, 500_000);
    let mut u = user();
    let mut before = (p.vault_x as u128) * (p.vault_y as u128);
    for (is_x, amount) in [(true, 10_000), (false, 25_000), (true, 100), (false, 999)] {
        assert_eq!(p.swap(&mut u, is_x, amount, 0), Ok(()));
        let after = (p.vault_x as u128) * (p.vault_y as u128);
        assert!(after >= before);
        before = after;
    }
}

#[test]
fn lifecycle_initialize_bootstrap_deposit_swap() {
    let mut p = initialize(1, 30, Some(5), 10, 20, 255, 254);
    let mut u = user();
    // the bootstrap deposit fixes the initial price ratio at 1:2
    assert_eq!(p.deposit(&mut u, 500_000, 1_000_000, 2_000_000), Ok(()));
    assert_eq!((p.vault_x, p.vault_y, p.lp_supply), (1_000_000, 2_000_000, 500_000));
    // a later trade prices against that ratio, fee-adjusted
    assert_eq!(p.swap(&mut u, true, 10_000, 19_744), Ok(()));
    assert_eq!((p.vault_x, p.vault_y), (1_010_000, 1_980_256));
    assert_eq!(p.lp_supply, 500_000);
}

#[test]
fn transfer_primitive_moves_balance_or_nothing() {
    let mut p = pool(30, 100, 200, 50);
    let mut u = UserAccounts { token_x: 10, token_y: 10, token_lp: 0 };
    assert_eq!(p.deposit_tokens(&mut u, true, 7), Ok(()));
    assert_eq!((p.vault_x, u.token_x), (107, 3));
    assert_eq!(p.deposit_tokens(&mut u, true, 4), Err(AmmError::TransferFailed));
    assert_eq!((p.vault_x, u.token_x), (107, 3));
}

#[test]
fn withdraw_primitive_moves_balance_or_nothing() {
    let mut p = pool(30, 100, 200, 50);
    let mut u = UserAccounts { token_x: 0, token_y: 0, token_lp: 0 };
    // is_x names the supplied asset: the pay-out leaves the opposite vault
    assert_eq!(p.withdraw_tokens(&mut u, true, 150), Ok(()));
    assert_eq!((p.vault_y, u.token_y), (50, 150));
    assert_eq!(p.withdraw_tokens(&mut u, true, 51), Err(AmmError::TransferFailed));
    assert_eq!((p.vault_y, u.token_y), (50, 150));
}

#[test]
fn mint_primitive_issues_supply_or_nothing() {
    let mut p = pool(30, 100, 200, 50);
    let mut u = UserAccounts { token_x: 0, token_y: 0, token_lp: u64::MAX - 5 };
    assert_eq!(p.mint_lp_tokens(&mut u, 5), Ok(()));
    assert_eq!((p.lp_supply, u.token_lp), (55, u64::MAX));
    assert_eq!(p.mint_lp_tokens(&mut u, 1), Err(AmmError::MintFailed));
    assert_eq!((p.lp_supply, u.token_lp), (55, u64::MAX));
}
