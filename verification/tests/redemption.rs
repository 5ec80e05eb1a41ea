use liq_pool::check_min_amount;
use liq_pool::proportional;
use liq_pool::reconcile;
use liq_pool::Delegation;
use liq_pool::Payouts;
use liq_pool::Pool;
use liq_pool::Pubkey;
use liq_pool::RedeemError;
use liq_pool::RedemptionPlan;
use liq_pool::RemoveLiquidity;
use liq_pool::TokenHolding;

/// The pool and request of the end-to-end scenario: tracked supply 1000,
/// native leg distributable 500 (510 raw less a floor of 10), derivative
/// leg 400, minimum withdrawal 10.
fn scenario() -> RemoveLiquidity {
    RemoveLiquidity {
        state: Pool {
            lp_mint: Pubkey(1),
            lp_supply: 1000,
            msol_leg: Pubkey(2),
            msol_leg_authority: Pubkey(3),
            rent_exempt_for_token_acc: 10,
            min_withdraw: 10,
        },
        lp_mint: Pubkey(1),
        lp_mint_supply: 1000,
        burn_from: TokenHolding {
            owner: Pubkey(4),
            amount: 500,
            delegation: Delegation::NoDelegate,
        },
        burn_from_authority: Pubkey(4),
        transfer_sol_to: Pubkey(5),
        transfer_msol_to: Pubkey(6),
        liq_pool_sol_leg_lamports: 510,
        liq_pool_msol_leg: Pubkey(2),
        liq_pool_msol_leg_amount: 400,
        liq_pool_msol_leg_authority: Pubkey(3),
    }
}

#[test]
fn proportional_never_exceeds_fair_share() {
    // floor(amount * reserve / supply) <= reserve, and scaled back up it
    // never exceeds the fair share.
    assert_eq!(proportional(1, 1000, 3), Ok(333));
    assert_eq!(proportional(2, 1000, 3), Ok(666));
    assert_eq!(proportional(999, 7, 1000), Ok(6));
    assert!(proportional(999, 7, 1000).unwrap() <= 7);
}

#[test]
fn proportional_zero_amount_pays_nothing() {
    assert_eq!(proportional(0, 500, 1000), Ok(0));
    assert_eq!(proportional(0, u64::MAX, 1), Ok(0));
}

#[test]
fn proportional_full_redemption_returns_entire_leg() {
    assert_eq!(proportional(1000, 500, 1000), Ok(500));
    assert_eq!(proportional(7, u64::MAX, 7), Ok(u64::MAX));
}

#[test]
fn proportional_zero_supply_is_divide_by_zero() {
    assert_eq!(proportional(100, 500, 0), Err(RedeemError::DivideByZero));
    assert_eq!(proportional(0, 0, 0), Err(RedeemError::DivideByZero));
}

#[test]
fn proportional_overflow_is_detected() {
    assert_eq!(
        proportional(u64::MAX, u64::MAX, 1),
        Err(RedeemError::ArithmeticOverflow)
    );
    // The widened intermediate keeps a large product exact.
    assert_eq!(proportional(u64::MAX, u64::MAX, u64::MAX), Ok(u64::MAX));
}

#[test]
fn reconcile_corrects_downward_never_upward() {
    assert_eq!(reconcile(100, 90), 90);
    assert_eq!(reconcile(100, 110), 100);
    assert_eq!(reconcile(100, 100), 100);
}

#[test]
fn owner_with_sufficient_balance_is_authorized() {
    let mut ctx = scenario();
    ctx.burn_from.amount = 50;
    assert_eq!(ctx.check_burn_from(50), Ok(()));
}

#[test]
fn owner_with_insufficient_balance_is_refused() {
    let mut ctx = scenario();
    ctx.burn_from.amount = 49;
    assert_eq!(ctx.check_burn_from(50), Err(RedeemError::InsufficientFunds));
}

#[test]
fn stranger_is_unauthorized() {
    let mut ctx = scenario();
    ctx.burn_from_authority = Pubkey(99);
    assert_eq!(ctx.check_burn_from(1), Err(RedeemError::Unauthorized));
}

#[test]
fn delegate_within_allowance_is_authorized() {
    let mut ctx = scenario();
    ctx.burn_from.delegation = Delegation::Delegate {
        authority: Pubkey(7),
        allowance: 30,
    };
    ctx.burn_from_authority = Pubkey(7);
    assert_eq!(ctx.check_burn_from(30), Ok(()));
}

#[test]
fn delegate_beyond_allowance_is_refused() {
    let mut ctx = scenario();
    ctx.burn_from.delegation = Delegation::Delegate {
        authority: Pubkey(7),
        allowance: 30,
    };
    ctx.burn_from_authority = Pubkey(7);
    assert_eq!(ctx.check_burn_from(31), Err(RedeemError::InsufficientFunds));
}

#[test]
fn wrong_delegate_is_unauthorized() {
    let mut ctx = scenario();
    ctx.burn_from.delegation = Delegation::Delegate {
        authority: Pubkey(7),
        allowance: 30,
    };
    ctx.burn_from_authority = Pubkey(8);
    assert_eq!(ctx.check_burn_from(1), Err(RedeemError::Unauthorized));
}

#[test]
fn min_amount_guard_boundary() {
    assert_eq!(check_min_amount(10, 10), Ok(()));
    assert_eq!(check_min_amount(9, 10), Err(RedeemError::SlippageExceeded));
}

#[test]
fn end_to_end_redemption_succeeds() {
    // Redeem 100 of 1000: native payout 50, derivative payout 40; at a 1:1
    // rate the combined value 90 clears the floor of 10; the tracked supply
    // becomes 900.
    let mut ctx = scenario();
    let plan = ctx.prepare(100).unwrap();
    assert_eq!(
        plan,
        RedemptionPlan {
            lp_supply: 1000,
            sol_out_amount: 50,
            msol_out_amount: 40,
        }
    );
    // 1:1 exchange rate: the derivative payout values its own amount.
    let r = ctx.process(100, Some(plan.msol_out_amount));
    assert_eq!(
        r,
        Ok(Payouts {
            sol_out_amount: 50,
            msol_out_amount: 40,
        })
    );
    assert_eq!(ctx.state.lp_supply, 900);
}

#[test]
fn slippage_guard_aborts_without_mutation() {
    let mut ctx = scenario();
    ctx.state.min_withdraw = 1000;
    let before = ctx;
    let plan = ctx.prepare(100).unwrap();
    let r = ctx.process(100, Some(plan.msol_out_amount));
    assert_eq!(r, Err(RedeemError::SlippageExceeded));
    assert_eq!(ctx, before);
}

#[test]
fn mint_mismatch_aborts_before_anything() {
    let mut ctx = scenario();
    ctx.lp_mint = Pubkey(42);
    let before = ctx;
    let r = ctx.process(100, Some(40));
    assert_eq!(r, Err(RedeemError::ConfigMismatch));
    assert_eq!(ctx, before);
}

#[test]
fn msol_leg_mismatch_is_config_mismatch() {
    let mut ctx = scenario();
    ctx.liq_pool_msol_leg = Pubkey(42);
    assert_eq!(ctx.prepare(100), Err(RedeemError::ConfigMismatch));
}

#[test]
fn msol_leg_authority_mismatch_is_config_mismatch() {
    let mut ctx = scenario();
    ctx.liq_pool_msol_leg_authority = Pubkey(42);
    assert_eq!(ctx.prepare(100), Err(RedeemError::ConfigMismatch));
}

#[test]
fn reconciled_supply_is_this_calls_denominator() {
    // The actual minted supply 500 is below the tracked 1000: the payouts
    // are computed against the reconciled 500, and the reconciled figure is
    // the one committed.
    let mut ctx = scenario();
    ctx.lp_mint_supply = 500;
    let plan = ctx.prepare(100).unwrap();
    assert_eq!(
        plan,
        RedemptionPlan {
            lp_supply: 500,
            sol_out_amount: 100,
            msol_out_amount: 80,
        }
    );
    let r = ctx.process(100, Some(plan.msol_out_amount));
    assert_eq!(
        r,
        Ok(Payouts {
            sol_out_amount: 100,
            msol_out_amount: 80,
        })
    );
    assert_eq!(ctx.state.lp_supply, 400);
}

#[test]
fn conversion_failure_aborts_without_mutation() {
    let mut ctx = scenario();
    let before = ctx;
    let r = ctx.process(100, None);
    assert_eq!(r, Err(RedeemError::ConversionError));
    assert_eq!(ctx, before);
}

#[test]
fn combined_value_overflow_is_detected() {
    let mut ctx = scenario();
    // A (corrupt) provider valuation that cannot be summed with the native
    // payout of 50.
    let r = ctx.process(100, Some(u64::MAX));
    assert_eq!(r, Err(RedeemError::ArithmeticOverflow));
    assert_eq!(ctx.state.lp_supply, 1000);
}

#[test]
fn burning_more_than_supply_is_underflow() {
    let mut ctx = scenario();
    ctx.state.lp_supply = 100;
    ctx.lp_mint_supply = 100;
    let before = ctx;
    // The holder owns 500 LP tokens but only 100 are reconciled as backed.
    let r = ctx.process(150, Some(600));
    assert_eq!(r, Err(RedeemError::Underflow));
    assert_eq!(ctx, before);
}

#[test]
fn sequential_redemptions_reduce_supply_monotonically() {
    let mut ctx = scenario();
    let r1 = ctx.process(100, Some(40)).unwrap();
    assert_eq!(ctx.state.lp_supply, 900);
    // The host burned the LP tokens and paid out both legs; mirror that in
    // the observed balances before the identical follow-up request.
    ctx.lp_mint_supply = 900;
    ctx.burn_from.amount -= 100;
    ctx.liq_pool_sol_leg_lamports -= r1.sol_out_amount;
    ctx.liq_pool_msol_leg_amount -= r1.msol_out_amount;
    let plan2 = ctx.prepare(100).unwrap();
    // 100 of 900 over a distributable leg of 450 and a derivative leg of 360.
    assert_eq!(plan2.sol_out_amount, 50);
    assert_eq!(plan2.msol_out_amount, 40);
    let r2 = ctx.process(100, Some(plan2.msol_out_amount)).unwrap();
    assert_eq!(r2.sol_out_amount, 50);
    assert_eq!(ctx.state.lp_supply, 800);
}

#[test]
fn zero_redemption_fails_the_minimum_output_guard() {
    let mut ctx = scenario();
    let before = ctx;
    // Nothing is owed for a zero burn, so the combined value 0 is below the
    // floor of 10.
    let r = ctx.process(0, Some(0));
    assert_eq!(r, Err(RedeemError::SlippageExceeded));
    assert_eq!(ctx, before);
}

#[test]
fn full_redemption_drains_both_legs() {
    let mut ctx = scenario();
    ctx.burn_from.amount = 1000;
    let r = ctx.process(1000, Some(400)).unwrap();
    assert_eq!(r.sol_out_amount, 500);
    assert_eq!(r.msol_out_amount, 400);
    assert_eq!(ctx.state.lp_supply, 0);
}

#[test]
fn external_supply_growth_is_not_trusted_as_backing() {
    // The actual minted supply grew outside the pool's control: the tracked
    // figure stays the denominator and the commit still draws from it.
    let mut ctx = scenario();
    ctx.lp_mint_supply = 1100;
    let plan = ctx.prepare(100).unwrap();
    assert_eq!(plan.lp_supply, 1000);
    let r = ctx.process(100, Some(plan.msol_out_amount)).unwrap();
    assert_eq!(r.sol_out_amount, 50);
    assert_eq!(ctx.state.lp_supply, 900);
}
