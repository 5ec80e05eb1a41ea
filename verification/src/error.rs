//! The failure taxonomy of the redemption operation.

use vstd::prelude::*;

verus! {

/// A typed failure naming the first stage of the redemption that failed.
/// Any failure aborts the whole call with zero persisted effect.
#[derive(Clone, Copy, Debug, PartialEq, Eq, Structural)]
pub enum RedeemError {
    /// A supplied address does not match the pool's configuration.
    ConfigMismatch,
    /// The requester is neither the holding's owner nor its delegate.
    Unauthorized,
    /// The holding's balance, or the delegate's allowance, is below the
    /// requested burn amount.
    InsufficientFunds,
    /// A payout or a combined value does not fit in 64 bits.
    ArithmeticOverflow,
    /// The reconciled LP supply, the payout denominator, is zero.
    DivideByZero,
    /// The burn amount exceeds the tracked supply at commit time.
    Underflow,
    /// The combined payout value is below the pool's minimum withdrawal.
    SlippageExceeded,
    /// A fund movement failed in the host's settlement layer. Never
    /// produced by this crate's own checks.
    TransferFailure,
    /// The exchange-rate provider could not value the derivative payout.
    ConversionError,
}

} // verus!
