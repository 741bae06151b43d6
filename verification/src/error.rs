use vstd::prelude::*;

verus! {

/// Error kinds surfaced by the pool operations. Every operation either fully
/// commits or returns one of these with all state left untouched.
#[derive(Clone, Copy, Debug, PartialEq, Eq, Structural)]
pub enum AmmError {
    /// The pool's circuit breaker is set; all mutating operations are refused.
    PoolLocked,
    /// A zero amount was supplied, or a computed swap leg rounds to zero.
    InvalidAmount,
    /// Computed required inputs exceed the caller's ceilings, or the computed
    /// output falls below the caller's floor.
    SlippageExceeded,
    /// Curve math exceeds the safe integer range.
    ArithmeticOverflow,
    /// Curve math divides by a zero reserve outside the bootstrap case.
    DivisionError,
    /// A token transfer cannot be honoured (insufficient balance, or the
    /// receiving balance would overflow).
    TransferFailed,
    /// Claim-token issuance cannot be honoured (supply or the receiving
    /// balance would overflow).
    MintFailed,
}

} // verus!
