//! Redemption ("remove liquidity") core of a two-leg liquidity pool.
//!
//! Users burn LP tokens to withdraw a proportional share of both reserve
//! legs: a native-currency (SOL) leg and a staked-derivative (mSOL) leg.
//! This crate holds the verified state transition: authorization of the
//! burn, reconciliation of the tracked LP supply against the actual minted
//! supply, proportional payout arithmetic from one consistent snapshot, the
//! minimum-output guard, and the commit of the post-burn tracked supply.
//! The on-chain transfers and the burn itself are performed by the host,
//! which drives this crate's decision functions.

mod calc;
mod checks;
mod error;
mod remove_liquidity;
mod state;

pub use calc::lemma_proportional_full_redemption;
pub use calc::lemma_proportional_le_reserve;
pub use calc::lemma_proportional_zero_amount;
pub use calc::proportional;
pub use calc::spec_proportional;
pub use checks::check_min_amount;
pub use error::RedeemError;
pub use remove_liquidity::lemma_payouts_within_reserves;
pub use remove_liquidity::lemma_redeem_strictly_decreases_supply;
pub use remove_liquidity::spec_check_burn_from;
pub use remove_liquidity::spec_guard;
pub use remove_liquidity::Payouts;
pub use remove_liquidity::RedemptionPlan;
pub use remove_liquidity::RemoveLiquidity;
pub use state::reconcile;
pub use state::spec_reconcile;
pub use state::Delegation;
pub use state::Pool;
pub use state::Pubkey;
pub use state::TokenHolding;
