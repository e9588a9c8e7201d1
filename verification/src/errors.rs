use vstd::prelude::*;

verus! {

/// Why an operation was refused. Every error is surfaced synchronously and
/// terminally: the engine retries nothing, and on any error the operation
/// leaves all records untouched.
#[derive(Clone, Copy, Debug, PartialEq, Eq, Structural)]
pub enum ErrorCode {
    /// The target protocol's active flag is false.
    ProtocolNotActive,
    /// The policy's validity window has ended.
    PolicyExpired,
    /// The policy has already paid out a claim.
    PolicyAlreadyClaimed,
    /// The caller is neither the protocol's authority nor the global one.
    UnauthorizedAccess,
    /// The requested pool tier is not one of Low, Medium, High.
    InvalidPoolType,
    /// The pool's available capital does not cover the requested amount.
    InsufficientPoolCapital,
    /// The provider's principal does not cover the requested amount.
    InsufficientProviderCapital,
    /// The policy's active flag is false.
    PolicyNotActive,
    /// The claimant is not the policy's insured party.
    UnauthorizedClaim,
    /// The claim asks for more than the policy's coverage.
    ExcessClaimAmount,
    /// The resolver is not the insured protocol's authority.
    UnauthorizedResolver,
    /// The claim already reached a terminal state.
    ClaimAlreadyResolved,
    /// A protocol record already exists for this authority.
    ProtocolAlreadyRegistered,
    /// Checked arithmetic overflowed: a fatal, non-retryable failure.
    NumericOverflow,
}

} // verus!
