//! The remove-liquidity (redemption) state transition.
//!
//! One call runs: validate the supplied addresses against the pool's
//! configuration, authorize the burn, reconcile the tracked LP supply,
//! compute both legs' payouts from that one snapshot, enforce the
//! minimum-output guard, and commit the post-burn tracked supply. Any
//! failure aborts with the pool untouched. The host performs the actual
//! fund movements and the burn between `prepare` and `process`'s result,
//! under its own atomic commit/rollback.

use vstd::prelude::*;

use crate::calc::{lemma_proportional_le_reserve, proportional, spec_proportional};
use crate::checks::check_min_amount;
use crate::error::RedeemError;
use crate::state::{reconcile, spec_reconcile, Delegation, Pool, Pubkey, TokenHolding};

verus! {

/// What `prepare` decides: the reconciled supply snapshot used as the
/// payout denominator, and the two payouts computed from it.
#[derive(Clone, Copy, Debug, PartialEq, Eq, Structural)]
pub struct RedemptionPlan {
    /// The reconciled LP supply, the denominator of both payouts.
    pub lp_supply: u64,
    /// Lamports owed from the native (SOL) leg.
    pub sol_out_amount: u64,
    /// Tokens owed from the derivative (mSOL) leg.
    pub msol_out_amount: u64,
}

/// The emitted payout amounts of a successful redemption.
#[derive(Clone, Copy, Debug, PartialEq, Eq, Structural)]
pub struct Payouts {
    /// Lamports to move from the native leg to the requester.
    pub sol_out_amount: u64,
    /// Derivative tokens to move from the derivative leg to the requester.
    pub msol_out_amount: u64,
}

/// One redemption request together with the pool state and the balances
/// the host read from the involved accounts.
#[derive(Clone, Copy, Debug, PartialEq, Eq, Structural)]
pub struct RemoveLiquidity {
    /// The pool; its `lp_supply` is the one field this call may write.
    pub state: Pool,
    /// The supplied LP mint identity; must match `state.lp_mint`.
    pub lp_mint: Pubkey,
    /// The LP token's actual minted supply.
    pub lp_mint_supply: u64,
    /// The holding the LP tokens are burned from.
    pub burn_from: TokenHolding,
    /// The identity requesting the burn.
    pub burn_from_authority: Pubkey,
    /// Destination address of the native payout.
    pub transfer_sol_to: Pubkey,
    /// Destination holding of the derivative payout.
    pub transfer_msol_to: Pubkey,
    /// The native leg custody's raw balance, in lamports.
    pub liq_pool_sol_leg_lamports: u64,
    /// The supplied derivative leg custody; must match `state.msol_leg`.
    pub liq_pool_msol_leg: Pubkey,
    /// The derivative leg custody's balance.
    pub liq_pool_msol_leg_amount: u64,
    /// The supplied derivative leg transfer authority; must match the
    /// derived `state.msol_leg_authority`.
    pub liq_pool_msol_leg_authority: Pubkey,
}

/// The authorization rule: the owner may burn up to the holding's balance,
/// an approved delegate up to its remaining allowance, nobody else anything.
pub open spec fn spec_check_burn_from(
    holding: TokenHolding,
    authority: Pubkey,
    tokens: u64,
) -> Result<(), RedeemError> {
    if authority == holding.owner {
        if holding.amount < tokens {
            Err(RedeemError::InsufficientFunds)
        } else {
            Ok(())
        }
    } else {
        match holding.delegation {
            Delegation::Delegate { authority: approved, allowance } => {
                if approved == authority {
                    if allowance < tokens {
                        Err(RedeemError::InsufficientFunds)
                    } else {
                        Ok(())
                    }
                } else {
                    Err(RedeemError::Unauthorized)
                }
            },
            Delegation::NoDelegate => Err(RedeemError::Unauthorized),
        }
    }
}

/// The minimum-output guard over the exchange-rate provider's outcome:
/// `None` means the provider failed; otherwise the derivative payout's
/// lamport value is summed with the native payout and held against the
/// pool's floor. Returns the combined value.
pub open spec fn spec_guard(
    sol_out_amount: u64,
    msol_value_lamports: Option<u64>,
    min_withdraw: u64,
) -> Result<u64, RedeemError> {
    match msol_value_lamports {
        Option::None => Err(RedeemError::ConversionError),
        Option::Some(v) => {
            let total = sol_out_amount + v;
            if total > u64::MAX {
                Err(RedeemError::ArithmeticOverflow)
            } else if total < min_withdraw {
                Err(RedeemError::SlippageExceeded)
            } else {
                Ok(total as u64)
            }
        },
    }
}

impl RemoveLiquidity {
    /// The native leg's distributable balance: the raw balance less the
    /// reserved rent-exemption floor, which is never distributed.
    pub open spec fn sol_leg_distributable(self) -> int {
        self.liq_pool_sol_leg_lamports - self.state.rent_exempt_for_token_acc
    }

    /// The planning stages in order: validate the mint, authorize the
    /// burn, validate the derivative leg and its authority, reconcile the
    /// supply, then compute both payouts from that one snapshot.
    pub open spec fn spec_plan(self, tokens: u64) -> Result<RedemptionPlan, RedeemError> {
        if self.lp_mint != self.state.lp_mint {
            Err(RedeemError::ConfigMismatch)
        } else {
            match spec_check_burn_from(self.burn_from, self.burn_from_authority, tokens) {
                Err(e) => Err(e),
                Ok(_) => {
                    if self.liq_pool_msol_leg != self.state.msol_leg
                        || self.liq_pool_msol_leg_authority != self.state.msol_leg_authority {
                        Err(RedeemError::ConfigMismatch)
                    } else {
                        let supply = spec_reconcile(self.state.lp_supply, self.lp_mint_supply);
                        if supply == 0 {
                            Err(RedeemError::DivideByZero)
                        } else {
                            let sol_out = spec_proportional(
                                tokens as int,
                                self.sol_leg_distributable(),
                                supply as int,
                            );
                            let msol_out = spec_proportional(
                                tokens as int,
                                self.liq_pool_msol_leg_amount as int,
                                supply as int,
                            );
                            if sol_out > u64::MAX {
                                Err(RedeemError::ArithmeticOverflow)
                            } else if msol_out > u64::MAX {
                                Err(RedeemError::ArithmeticOverflow)
                            } else {
                                Ok(
                                    RedemptionPlan {
                                        lp_supply: supply,
                                        sol_out_amount: sol_out as u64,
                                        msol_out_amount: msol_out as u64,
                                    },
                                )
                            }
                        }
                    }
                },
            }
        }
    }

    /// The whole call's outcome: the plan, then the guard over the
    /// provider's outcome, then the defensive underflow check of the
    /// commit.
    pub open spec fn spec_process(self, tokens: u64, msol_value_lamports: Option<u64>) -> Result<
        Payouts,
        RedeemError,
    > {
        match self.spec_plan(tokens) {
            Err(e) => Err(e),
            Ok(plan) => match spec_guard(
                plan.sol_out_amount,
                msol_value_lamports,
                self.state.min_withdraw,
            ) {
                Err(e) => Err(e),
                Ok(_) => {
                    if tokens > plan.lp_supply {
                        Err(RedeemError::Underflow)
                    } else {
                        Ok(
                            Payouts {
                                sol_out_amount: plan.sol_out_amount,
                                msol_out_amount: plan.msol_out_amount,
                            },
                        )
                    }
                },
            },
        }
    }

    /// The tracked supply a successful call commits: the reconciled
    /// snapshot less the burned amount.
    pub open spec fn spec_new_lp_supply(self, tokens: u64) -> int {
        spec_reconcile(self.state.lp_supply, self.lp_mint_supply) - tokens
    }

    /// Authorizes the burn of `tokens` from `burn_from` as requested by
    /// `burn_from_authority`. Pure check, no mutation.
    pub fn check_burn_from(&self, tokens: u64) -> (r: Result<(), RedeemError>)
        ensures
            r == spec_check_burn_from(self.burn_from, self.burn_from_authority, tokens),
    {
        if self.burn_from_authority == self.burn_from.owner {
            if self.burn_from.amount < tokens {
                return Err(RedeemError::InsufficientFunds);
            }
        } else {
            match self.burn_from.delegation {
                Delegation::Delegate { authority, allowance } => {
                    if authority == self.burn_from_authority {
                        if allowance < tokens {
                            return Err(RedeemError::InsufficientFunds);
                        }
                    } else {
                        return Err(RedeemError::Unauthorized);
                    }
                },
                Delegation::NoDelegate => {
                    return Err(RedeemError::Unauthorized);
                },
            }
        }
        Ok(())
    }

    /// Validates, authorizes, reconciles and computes both payouts from
    /// the one reconciled snapshot. Pure: mutates nothing. The caller must
    /// have kept the native custody at or above its rent-exemption floor.
    pub fn prepare(&self, tokens: u64) -> (r: Result<RedemptionPlan, RedeemError>)
        requires
            self.liq_pool_sol_leg_lamports >= self.state.rent_exempt_for_token_acc,
        ensures
            r == self.spec_plan(tokens),
    {
        self.state.check_lp_mint(self.lp_mint)?;
        self.check_burn_from(tokens)?;
        self.state.check_liq_pool_msol_leg(self.liq_pool_msol_leg)?;
        self.state.check_liq_pool_msol_leg_authority(self.liq_pool_msol_leg_authority)?;
        let lp_supply = reconcile(self.state.lp_supply, self.lp_mint_supply);
        let sol_out_amount = proportional(
            tokens,
            self.liq_pool_sol_leg_lamports - self.state.rent_exempt_for_token_acc,
            lp_supply,
        )?;
        let msol_out_amount = proportional(tokens, self.liq_pool_msol_leg_amount, lp_supply)?;
        Ok(RedemptionPlan { lp_supply, sol_out_amount, msol_out_amount })
    }

    /// Runs the whole redemption decision and, on success, commits the
    /// post-burn tracked supply. `msol_value_lamports` is the exchange-rate
    /// provider's valuation of the planned derivative payout (`None` when
    /// the provider failed); the contract holds for every value the
    /// provider may hand back. On any failure the pool is left untouched;
    /// the host then performs the two transfers and the burn, in that
    /// order, and persists the returned state, all inside one atomic unit.
    pub fn process(&mut self, tokens: u64, msol_value_lamports: Option<u64>) -> (r: Result<
        Payouts,
        RedeemError,
    >)
        requires
            old(self).liq_pool_sol_leg_lamports >= old(self).state.rent_exempt_for_token_acc,
        ensures
            r == old(self).spec_process(tokens, msol_value_lamports),
            r is Ok ==> *final(self) == (RemoveLiquidity {
                state: Pool {
                    lp_supply: old(self).spec_new_lp_supply(tokens) as u64,
                    ..old(self).state
                },
                ..*old(self)
            }),
            r is Err ==> *final(self) == *old(self),
    {
        let plan = match self.prepare(tokens) {
            Ok(p) => p,
            Err(e) => {
                return Err(e);
            },
        };
        let msol_value = match msol_value_lamports {
            Option::Some(v) => v,
            Option::None => {
                return Err(RedeemError::ConversionError);
            },
        };
        let total = match plan.sol_out_amount.checked_add(msol_value) {
            Option::Some(t) => t,
            Option::None => {
                return Err(RedeemError::ArithmeticOverflow);
            },
        };
        check_min_amount(total, self.state.min_withdraw)?;
        // Commit against a scratch copy carrying the reconciled snapshot,
        // persisted only when the commit itself succeeds.
        let mut committed: Pool = self.state;
        committed.lp_supply = plan.lp_supply;
        match committed.on_lp_burn(tokens) {
            Ok(_) => {
                self.state = committed;
                Ok(
                    Payouts {
                        sol_out_amount: plan.sol_out_amount,
                        msol_out_amount: plan.msol_out_amount,
                    },
                )
            },
            Err(e) => Err(e),
        }
    }
}

/// No value leaks out of the reserves: as long as no more than the
/// reconciled supply is redeemed, each planned payout fits inside its
/// leg's distributable balance.
pub proof fn lemma_payouts_within_reserves(ctx: RemoveLiquidity, tokens: u64)
    requires
        ctx.liq_pool_sol_leg_lamports >= ctx.state.rent_exempt_for_token_acc,
        0 < tokens <= spec_reconcile(ctx.state.lp_supply, ctx.lp_mint_supply),
    ensures
        ctx.spec_plan(tokens) matches Ok(plan) ==> plan.sol_out_amount
            <= ctx.sol_leg_distributable() && plan.msol_out_amount
            <= ctx.liq_pool_msol_leg_amount,
{
    let supply = spec_reconcile(ctx.state.lp_supply, ctx.lp_mint_supply);
    if ctx.spec_plan(tokens) is Ok {
        lemma_proportional_le_reserve(
            tokens as int,
            ctx.sol_leg_distributable(),
            supply as int,
        );
        lemma_proportional_le_reserve(
            tokens as int,
            ctx.liq_pool_msol_leg_amount as int,
            supply as int,
        );
    }
}

/// No double spend: every successful redemption of a positive amount
/// strictly decreases the tracked LP supply, so sequential requests each
/// draw from a strictly smaller pool and one request can never be honored
/// twice against the same backing.
pub proof fn lemma_redeem_strictly_decreases_supply(
    ctx: RemoveLiquidity,
    tokens: u64,
    msol_value_lamports: Option<u64>,
)
    requires
        tokens > 0,
        ctx.spec_process(tokens, msol_value_lamports) is Ok,
    ensures
        0 <= ctx.spec_new_lp_supply(tokens) < ctx.state.lp_supply,
{
}

} // verus!

