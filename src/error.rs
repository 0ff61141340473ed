use vstd::prelude::*;

verus! {

/// Reasons for which a pool operation is refused.
#[derive(Clone, Copy, Debug, PartialEq, Eq, Structural)]
pub enum GammaError {
    /// The pool does not allow the operation now (status bit or open time).
    NotApproved,
    /// The vaults handed in are not the pool's two vaults.
    InvalidVault,
    /// The curve yields no tradable amount for the request.
    ZeroTradingTokens,
    /// A checked arithmetic step overflowed, or a narrowing did not fit.
    MathOverflow,
    /// A checked subtraction in the referral carve-out failed.
    MathError,
    /// The required input exceeds the caller's bound.
    ExceededSlippage,
    /// The pool's constant product would decrease.
    InvariantViolated,
}

} // verus!
