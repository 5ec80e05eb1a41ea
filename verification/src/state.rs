//! Pool state, token holdings, supply reconciliation and the commit.

use vstd::prelude::*;

use crate::error::RedeemError;

verus! {

/// An account address. The host derives custody and authority addresses
/// from seed material; this crate only compares them for identity.
#[derive(Clone, Copy, Debug, PartialEq, Eq, Structural)]
pub struct Pubkey(pub u64);

/// Who, besides the owner, may move funds out of a token holding.
#[derive(Clone, Copy, Debug, PartialEq, Eq, Structural)]
pub enum Delegation {
    /// Nobody was approved.
    NoDelegate,
    /// `authority` was approved by the owner to move up to `allowance`.
    Delegate { authority: Pubkey, allowance: u64 },
}

/// A token holding: the LP-token account the burn is taken from.
#[derive(Clone, Copy, Debug, PartialEq, Eq, Structural)]
pub struct TokenHolding {
    /// The holding's owner.
    pub owner: Pubkey,
    /// The holding's balance.
    pub amount: u64,
    /// The holding's delegate approval, if any.
    pub delegation: Delegation,
}

/// The persistent pool configuration and its tracked ("virtual") LP supply.
/// Only `lp_supply` is ever written by this crate; every other field is
/// read-only configuration.
#[derive(Clone, Copy, Debug, PartialEq, Eq, Structural)]
pub struct Pool {
    /// The claim-token (LP) mint identity.
    pub lp_mint: Pubkey,
    /// The tracked LP supply, reconciled against the actual minted supply
    /// on each call and reduced by each successful burn.
    pub lp_supply: u64,
    /// The derivative (mSOL) leg's custody address.
    pub msol_leg: Pubkey,
    /// The transfer authority of the derivative leg, as the host derives it
    /// from the leg's seed material.
    pub msol_leg_authority: Pubkey,
    /// The reserved floor on the native leg: lamports that keep the custody
    /// account rent-exempt and must never be distributed.
    pub rent_exempt_for_token_acc: u64,
    /// The minimum combined redemption value, in lamports.
    pub min_withdraw: u64,
}

/// The supply snapshot a reconciliation yields: the tracked supply is
/// corrected downward to the actual minted supply, never upward.
pub open spec fn spec_reconcile(tracked_supply: u64, actual_minted: u64) -> u64 {
    if actual_minted > tracked_supply {
        tracked_supply
    } else {
        actual_minted
    }
}

/// Reconciles the tracked LP supply against the token's actual minted
/// supply. Burns performed outside this module are absorbed; growth outside
/// this module is never trusted as backing, so the result never exceeds
/// either figure.
pub fn reconcile(tracked_supply: u64, actual_minted: u64) -> (r: u64)
    ensures
        r == spec_reconcile(tracked_supply, actual_minted),
        r <= tracked_supply,
        r <= actual_minted,
{
    if actual_minted > tracked_supply {
        tracked_supply
    } else {
        actual_minted
    }
}

impl Pool {
    /// Verifies that a supplied mint identity is this pool's LP mint.
    pub fn check_lp_mint(&self, mint: Pubkey) -> (r: Result<(), RedeemError>)
        ensures
            mint == self.lp_mint ==> r == Ok::<(), RedeemError>(()),
            mint != self.lp_mint ==> r == Err::<(), RedeemError>(RedeemError::ConfigMismatch),
    {
        if mint == self.lp_mint {
            Ok(())
        } else {
            Err(RedeemError::ConfigMismatch)
        }
    }

    /// Verifies that a supplied custody address is this pool's derivative
    /// (mSOL) leg.
    pub fn check_liq_pool_msol_leg(&self, key: Pubkey) -> (r: Result<(), RedeemError>)
        ensures
            key == self.msol_leg ==> r == Ok::<(), RedeemError>(()),
            key != self.msol_leg ==> r == Err::<(), RedeemError>(RedeemError::ConfigMismatch),
    {
        if key == self.msol_leg {
            Ok(())
        } else {
            Err(RedeemError::ConfigMismatch)
        }
    }

    /// Verifies that a supplied authority is the derivative leg's derived
    /// transfer authority.
    pub fn check_liq_pool_msol_leg_authority(&self, key: Pubkey) -> (r: Result<(), RedeemError>)
        ensures
            key == self.msol_leg_authority ==> r == Ok::<(), RedeemError>(()),
            key != self.msol_leg_authority ==> r == Err::<(), RedeemError>(
                RedeemError::ConfigMismatch,
            ),
    {
        if key == self.msol_leg_authority {
            Ok(())
        } else {
            Err(RedeemError::ConfigMismatch)
        }
    }

    /// Commits a burn: the tracked supply strictly decreases by the burned
    /// amount; on `Underflow` the pool is left untouched.
    pub fn on_lp_burn(&mut self, tokens: u64) -> (r: Result<(), RedeemError>)
        ensures
            tokens <= old(self).lp_supply ==> r == Ok::<(), RedeemError>(()) && *final(self)
                == (Pool { lp_supply: (old(self).lp_supply - tokens) as u64, ..*old(self) }),
            tokens > old(self).lp_supply ==> r == Err::<(), RedeemError>(RedeemError::Underflow)
                && *final(self) == *old(self),
    {
        if tokens > self.lp_supply {
            Err(RedeemError::Underflow)
        } else {
            self.lp_supply = self.lp_supply - tokens;
            Ok(())
        }
    }
}

} // verus!
