use token_launch::account::AccountKey;
use token_launch::amm::{buy_tokens, initialize, BondingCurve, BuyResult, AMM};
use token_launch::error::LaunchpadError;

fn key(b: u8) -> AccountKey {
    AccountKey::new([b; 32])
}

fn amm(real_token_reserves: u64) -> AMM {
    AMM {
        virtual_sol_reserves: 1_000_000,
        virtual_token_reserves: 1_000_000_000,
        real_sol_reserves: 0,
        real_token_reserves,
        initial_virtual_token_reserves: 1_000_000_000,
    }
}

fn stored() -> BondingCurve {
    BondingCurve {
        virtual_sol_reserves: 1_000_000,
        virtual_token_reserves: 1_000_000_000,
        real_sol_reserves: 0,
        real_token_reserves: 800_000_000,
        token_total_supply: 1_000_000_000,
        complete: false,
    }
}

#[test]
fn configuration_record() {
    let g = initialize(key(1), key(2), 100, 11, 22, 33);
    assert!(g.initialized);
    assert_eq!(g.authority.to_bytes(), [1u8; 32]);
    assert_eq!(g.fee_recipient.to_bytes(), [2u8; 32]);
    assert_eq!(g.fee_basis_points, 100);
    assert_eq!(g.initial_virtual_token_reserves, 11);
    assert_eq!(g.initial_virtual_sol_reserves, 22);
    assert_eq!(g.initial_real_token_reserves, 33);
}

fn unchanged(a: &AMM, virtual_sol: u64, virtual_token: u64, real_sol: u64, real_token: u64) -> bool {
    a.virtual_sol_reserves == virtual_sol
        && a.virtual_token_reserves == virtual_token
        && a.real_sol_reserves == real_sol
        && a.real_token_reserves == real_token
}

fn stored_from(a: &AMM) -> BondingCurve {
    BondingCurve {
        virtual_sol_reserves: a.virtual_sol_reserves,
        virtual_token_reserves: a.virtual_token_reserves,
        real_sol_reserves: a.real_sol_reserves,
        real_token_reserves: a.real_token_reserves,
        token_total_supply: u64::MAX,
        complete: false,
    }
}

#[test]
fn constant_product_regression_vector() {
    let a = amm(1_000_000_000);
    assert_eq!(a.apply_buy(1_000_000), Ok(BuyResult { token_amount: 1_000_000, sol_amount: 1002 }));
}

#[test]
fn quote_leaves_the_reserves_alone() {
    let a = amm(1_000_000_000);
    assert_eq!(a.apply_buy(1_000_000), Ok(BuyResult { token_amount: 1_000_000, sol_amount: 1002 }));
    assert!(unchanged(&a, 1_000_000, 1_000_000_000, 0, 1_000_000_000));
    assert_eq!(a.initial_virtual_token_reserves, 1_000_000_000);
    assert_eq!(a.apply_buy(1_000_000), Ok(BuyResult { token_amount: 1_000_000, sol_amount: 1002 }));
    assert_eq!(a.apply_buy(1_000_000_000), Err(LaunchpadError::InvalidArgument));
    assert!(unchanged(&a, 1_000_000, 1_000_000_000, 0, 1_000_000_000));
}

#[test]
fn request_is_clamped_to_the_real_reserve() {
    let a = amm(500);
    assert_eq!(a.apply_buy(1000), Ok(BuyResult { token_amount: 500, sol_amount: 1 }));
    assert_eq!(a.apply_buy(500), Ok(BuyResult { token_amount: 500, sol_amount: 1 }));
    assert_eq!(a.apply_buy(u64::MAX), Ok(BuyResult { token_amount: 500, sol_amount: 1 }));
    let g = initialize(key(1), key(2), 100, 1_000_000_000, 1_000_000, 500);
    let mut c = stored_from(&a);
    assert_eq!(buy_tokens(&mut c, &g, 1000, 1), Ok(BuyResult { token_amount: 500, sol_amount: 1 }));
    assert_eq!(c.real_token_reserves, 0);
    assert_eq!(c.virtual_token_reserves, 999_999_500);
    assert_eq!(c.virtual_sol_reserves, 1_000_001);
    assert_eq!(c.real_sol_reserves, 1);
    assert_eq!(buy_tokens(&mut c, &g, 1000, 1), Ok(BuyResult { token_amount: 0, sol_amount: 1 }));
    assert_eq!(c.real_token_reserves, 0);
    assert_eq!(c.virtual_token_reserves, 999_999_500);
    assert_eq!(c.virtual_sol_reserves, 1_000_002);
    assert_eq!(c.real_sol_reserves, 2);
}

#[test]
fn buying_every_virtual_token_is_refused() {
    let a = amm(1_000_000_000);
    assert_eq!(a.apply_buy(1_000_000_000), Err(LaunchpadError::InvalidArgument));
    let more_real_than_virtual = amm(2_000_000_000);
    assert_eq!(more_real_than_virtual.apply_buy(1_500_000_000), Err(LaunchpadError::InvalidArgument));
    let none = AMM {
        virtual_sol_reserves: 5,
        virtual_token_reserves: 0,
        real_sol_reserves: 0,
        real_token_reserves: 0,
        initial_virtual_token_reserves: 0,
    };
    assert_eq!(none.apply_buy(0), Err(LaunchpadError::InvalidArgument));
}

#[test]
fn buying_all_but_one_virtual_token_costs_the_whole_product() {
    let a = amm(1_000_000_000);
    assert_eq!(
        a.apply_buy(999_999_999),
        Ok(BuyResult { token_amount: 999_999_999, sol_amount: 999_999_999_000_001 })
    );
}

#[test]
fn oversized_product_saturates() {
    let a = AMM {
        virtual_sol_reserves: u64::MAX,
        virtual_token_reserves: 10,
        real_sol_reserves: u64::MAX - 1,
        real_token_reserves: 5,
        initial_virtual_token_reserves: 10,
    };
    assert_eq!(a.apply_buy(5), Ok(BuyResult { token_amount: 5, sol_amount: 0 }));
    let g = initialize(key(1), key(2), 100, 10, 1, 5);
    let mut c = stored_from(&a);
    assert_eq!(buy_tokens(&mut c, &g, 5, 0), Ok(BuyResult { token_amount: 5, sol_amount: 0 }));
    assert_eq!(c.virtual_sol_reserves, u64::MAX);
    assert_eq!(c.virtual_token_reserves, 5);
    assert_eq!(c.real_sol_reserves, u64::MAX - 1);
    assert_eq!(c.real_token_reserves, 0);
    let b = AMM {
        virtual_sol_reserves: 1 << 40,
        virtual_token_reserves: 1 << 40,
        real_sol_reserves: 7,
        real_token_reserves: 1 << 40,
        initial_virtual_token_reserves: 1 << 40,
    };
    assert_eq!(b.apply_buy(1 << 39), Ok(BuyResult { token_amount: 1 << 39, sol_amount: 0 }));
}

#[test]
fn ledger_payment_reserve_saturates() {
    let a = AMM {
        virtual_sol_reserves: 1,
        virtual_token_reserves: 10,
        real_sol_reserves: u64::MAX - 1,
        real_token_reserves: 5,
        initial_virtual_token_reserves: 10,
    };
    assert_eq!(a.apply_buy(5), Ok(BuyResult { token_amount: 5, sol_amount: 2 }));
    let g = initialize(key(1), key(2), 100, 10, 1, 5);
    let mut c = stored_from(&a);
    assert_eq!(buy_tokens(&mut c, &g, 5, 2), Ok(BuyResult { token_amount: 5, sol_amount: 2 }));
    assert_eq!(c.virtual_sol_reserves, 3);
    assert_eq!(c.virtual_token_reserves, 5);
    assert_eq!(c.real_sol_reserves, u64::MAX);
    assert_eq!(c.real_token_reserves, 0);
}

#[test]
fn cost_grows_with_the_request() {
    let a = amm(1_000_000_000);
    let mut last = 0;
    for tokens in [0u64, 1, 1000, 1_000_000, 10_000_000, 500_000_000, 999_999_999] {
        let r = a.apply_buy(tokens).unwrap();
        assert!(r.sol_amount >= last);
        last = r.sol_amount;
    }
}

#[test]
fn purchase_keeps_the_product() {
    let g = initialize(key(1), key(2), 100, 1_000_000_000, 1_000_000, 1_000_000_000);
    let mut c = stored_from(&amm(1_000_000_000));
    let before = c.virtual_sol_reserves as u128 * c.virtual_token_reserves as u128;
    for tokens in [1u64, 12_345, 1_000_000, 77_777_777] {
        buy_tokens(&mut c, &g, tokens, u64::MAX).unwrap();
        let after = c.virtual_sol_reserves as u128 * c.virtual_token_reserves as u128;
        assert!(after >= before);
    }
}

#[test]
fn ledger_buy_commits_the_reserves() {
    let g = initialize(key(1), key(2), 100, 1_000_000_000, 1_000_000, 800_000_000);
    let mut c = stored();
    assert_eq!(
        buy_tokens(&mut c, &g, 1_000_000, 1002),
        Ok(BuyResult { token_amount: 1_000_000, sol_amount: 1002 })
    );
    assert_eq!(c.virtual_sol_reserves, 1_001_002);
    assert_eq!(c.virtual_token_reserves, 999_000_000);
    assert_eq!(c.real_sol_reserves, 1002);
    assert_eq!(c.real_token_reserves, 799_000_000);
    assert_eq!(c.token_total_supply, 1_000_000_000);
    assert!(!c.complete);
}

#[test]
fn ledger_buy_respects_the_cost_bound() {
    let g = initialize(key(1), key(2), 100, 1_000_000_000, 1_000_000, 800_000_000);
    let mut c = stored();
    assert_eq!(buy_tokens(&mut c, &g, 1_000_000, 1001), Err(LaunchpadError::SlippageExceeded));
    assert_eq!(c.virtual_sol_reserves, 1_000_000);
    assert_eq!(c.virtual_token_reserves, 1_000_000_000);
    assert_eq!(c.real_sol_reserves, 0);
    assert_eq!(c.real_token_reserves, 800_000_000);
}

#[test]
fn ledger_buy_on_a_complete_curve_is_refused() {
    let g = initialize(key(1), key(2), 100, 1_000_000_000, 1_000_000, 800_000_000);
    let mut c = stored();
    c.complete = true;
    assert_eq!(buy_tokens(&mut c, &g, 1_000_000, u64::MAX), Err(LaunchpadError::CurveComplete));
    assert_eq!(c.real_token_reserves, 800_000_000);
    assert!(c.complete);
}

#[test]
fn ledger_buy_passes_pricing_refusals_on() {
    let g = initialize(key(1), key(2), 100, 1_000_000_000, 1_000_000, 800_000_000);
    let mut c = stored();
    c.real_token_reserves = 1_000_000_000;
    assert_eq!(buy_tokens(&mut c, &g, u64::MAX, u64::MAX), Err(LaunchpadError::InvalidArgument));
    assert_eq!(c.real_token_reserves, 1_000_000_000);
    assert_eq!(c.virtual_token_reserves, 1_000_000_000);
}

#[test]
fn ledger_reserve_only_falls() {
    let g = initialize(key(1), key(2), 100, 1_000_000_000, 1_000_000, 800_000_000);
    let mut c = stored();
    let mut last_tokens = c.real_token_reserves;
    let mut last_sol = c.real_sol_reserves;
    for tokens in [5u64, 50_000, 0, 123_456_789, 900_000_000, 1] {
        let _ = buy_tokens(&mut c, &g, tokens, u64::MAX);
        assert!(c.real_token_reserves <= last_tokens);
        assert!(c.real_sol_reserves >= last_sol);
        assert!(c.real_token_reserves <= c.token_total_supply);
        last_tokens = c.real_token_reserves;
        last_sol = c.real_sol_reserves;
    }
}
