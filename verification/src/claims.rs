//! Claims settlement state machine: a claim is born Pending and moves exactly
//! once to Approved or Rejected, never to be reopened. Approval earmarks the
//! claim amount out of the pool's available capital and asks the host to pay
//! the claimant out of pool custody.

use crate::capital_management::{same_pool_identity, CapitalPool};
use crate::errors::ErrorCode;
use crate::policy::Policy;
use crate::protocol::ProtocolInfo;
use crate::transfer::{AccountId, TransferRequest};
use vstd::prelude::*;

verus! {

/// Status of a claim that awaits resolution.
pub const CLAIM_STATUS_PENDING: u8 = 0;

/// Terminal status of a claim that was approved and paid.
pub const CLAIM_STATUS_APPROVED: u8 = 1;

/// Terminal status of a claim that was rejected.
pub const CLAIM_STATUS_REJECTED: u8 = 2;

/// One claim against one policy. The host keys the claim by its policy, so at
/// most one live claim exists per policy; re-submission before resolution
/// fails at the storage layer, not here.
#[derive(Clone, Debug, PartialEq, Eq)]
pub struct Claim {
    /// Key of the policy the claim draws against.
    pub policy: AccountId,
    /// Identity that submitted the claim.
    pub claimant: AccountId,
    /// Amount claimed, at most the policy's coverage.
    pub amount: u64,
    /// Free-form evidence text supplied on submission.
    pub evidence: String,
    /// When the claim was submitted.
    pub submitted_time: i64,
    /// `CLAIM_STATUS_PENDING`, `CLAIM_STATUS_APPROVED` or `CLAIM_STATUS_REJECTED`.
    pub status: u8,
    /// When the claim was resolved; zero while pending.
    pub resolution_time: i64,
    /// Identity that resolved the claim; zero while pending.
    pub resolver: AccountId,
    /// Free-form notes recorded at resolution; empty while pending.
    pub resolution_notes: String,
}

/// The precondition check of `submit_claim`, in the order the checks run:
/// the error returned, or `None` when the submission is accepted.
pub open spec fn submit_claim_check(
    policy: Policy,
    claimant: AccountId,
    amount: u64,
    now: i64,
) -> Option<ErrorCode> {
    if !policy.is_active {
        Some(ErrorCode::PolicyNotActive)
    } else if policy.end_time <= now {
        Some(ErrorCode::PolicyExpired)
    } else if policy.is_claimed {
        Some(ErrorCode::PolicyAlreadyClaimed)
    } else if claimant != policy.insured {
        Some(ErrorCode::UnauthorizedClaim)
    } else if amount > policy.coverage_amount {
        Some(ErrorCode::ExcessClaimAmount)
    } else {
        None
    }
}

/// The precondition check of `resolve_claim`, in the order the checks run:
/// the error returned, or `None` when the resolution goes through.
pub open spec fn resolve_claim_check(
    claim: Claim,
    pool: CapitalPool,
    protocol_info: ProtocolInfo,
    resolver: AccountId,
    approve: bool,
) -> Option<ErrorCode> {
    if resolver != protocol_info.authority {
        Some(ErrorCode::UnauthorizedResolver)
    } else if claim.status != CLAIM_STATUS_PENDING {
        Some(ErrorCode::ClaimAlreadyResolved)
    } else if approve && claim.amount > pool.available_capital {
        Some(ErrorCode::InsufficientPoolCapital)
    } else {
        None
    }
}

/// Submits a claim against a policy: the policy must be active, unexpired at
/// `now` and unclaimed, the claimant must be the insured, and the amount must
/// stay within the coverage. The new claim starts Pending, stamped with `now`.
pub fn submit_claim(
    policy: &Policy,
    policy_id: AccountId,
    claimant: AccountId,
    amount: u64,
    evidence: String,
    now: i64,
) -> (result: Result<Claim, ErrorCode>)
    ensures
        result matches Err(e) ==> submit_claim_check(*policy, claimant, amount, now) == Some(e),
        result is Ok <==> submit_claim_check(*policy, claimant, amount, now) is None,
        result matches Ok(claim) ==> {
            &&& claim.policy == policy_id
            &&& claim.claimant == claimant
            &&& claim.amount == amount
            &&& claim.evidence == evidence
            &&& claim.submitted_time == now
            &&& claim.status == CLAIM_STATUS_PENDING
            &&& claim.resolution_time == 0
            &&& claim.resolver == 0
            &&& claim.resolution_notes@ == Seq::<char>::empty()
        },
{
    if !policy.is_active {
        return Err(ErrorCode::PolicyNotActive);
    }
    if policy.end_time <= now {
        return Err(ErrorCode::PolicyExpired);
    }
    if policy.is_claimed {
        return Err(ErrorCode::PolicyAlreadyClaimed);
    }
    if claimant != policy.insured {
        return Err(ErrorCode::UnauthorizedClaim);
    }
    if amount > policy.coverage_amount {
        return Err(ErrorCode::ExcessClaimAmount);
    }
    Ok(
        Claim {
            policy: policy_id,
            claimant,
            amount,
            evidence,
            submitted_time: now,
            status: CLAIM_STATUS_PENDING,
            resolution_time: 0,
            resolver: 0,
            resolution_notes: String::new(),
        },
    )
}

/// Resolves a pending claim, Approved or Rejected, exactly once.
///
/// Only the insured protocol's authority may resolve. On approval the policy
/// is marked claimed and exactly `claim.amount` moves from the pool's
/// available to its reserved capital — the total is untouched — and the host
/// must pay the claimant out of pool custody, under the pool's own authority,
/// as the returned request says. On rejection only the claim record changes.
/// On any error nothing changes at all.
pub fn resolve_claim(
    claim: &mut Claim,
    policy: &mut Policy,
    pool: &mut CapitalPool,
    pool_id: AccountId,
    protocol_info: &ProtocolInfo,
    claimant_token: AccountId,
    resolver: AccountId,
    approve: bool,
    resolution_notes: String,
    now: i64,
) -> (result: Result<Option<TransferRequest>, ErrorCode>)
    requires
        old(pool).balanced(),
    ensures
        final(pool).balanced(),
        result matches Err(e) ==> {
            &&& resolve_claim_check(*old(claim), *old(pool), *protocol_info, resolver, approve)
                == Some(e)
            &&& *final(claim) == *old(claim)
            &&& *final(policy) == *old(policy)
            &&& *final(pool) == *old(pool)
        },
        result is Ok <==> resolve_claim_check(
            *old(claim),
            *old(pool),
            *protocol_info,
            resolver,
            approve,
        ) is None,
        result is Ok ==> {
            &&& final(claim).status == (if approve {
                CLAIM_STATUS_APPROVED
            } else {
                CLAIM_STATUS_REJECTED
            })
            &&& final(claim).resolution_time == now
            &&& final(claim).resolver == resolver
            &&& final(claim).resolution_notes == resolution_notes
            &&& final(claim).policy == old(claim).policy
            &&& final(claim).claimant == old(claim).claimant
            &&& final(claim).amount == old(claim).amount
            &&& final(claim).evidence == old(claim).evidence
            &&& final(claim).submitted_time == old(claim).submitted_time
        },
        result matches Ok(transfer) ==> if approve {
            &&& *final(policy) == (Policy { is_claimed: true, ..*old(policy) })
            &&& same_pool_identity(*old(pool), *final(pool))
            &&& final(pool).total_capital == old(pool).total_capital
            &&& final(pool).available_capital == old(pool).available_capital - old(claim).amount
            &&& final(pool).reserved_capital == old(pool).reserved_capital + old(claim).amount
            &&& transfer == Some(
                TransferRequest {
                    from: old(pool).token_account,
                    to: claimant_token,
                    authority: pool_id,
                    amount: old(claim).amount,
                },
            )
        } else {
            &&& *final(policy) == *old(policy)
            &&& *final(pool) == *old(pool)
            &&& transfer == None::<TransferRequest>
        },
{
    if resolver != protocol_info.authority {
        return Err(ErrorCode::UnauthorizedResolver);
    }
    if claim.status != CLAIM_STATUS_PENDING {
        return Err(ErrorCode::ClaimAlreadyResolved);
    }
    if approve && claim.amount > pool.available_capital {
        return Err(ErrorCode::InsufficientPoolCapital);
    }

    claim.status = if approve {
        CLAIM_STATUS_APPROVED
    } else {
        CLAIM_STATUS_REJECTED
    };
    claim.resolution_time = now;
    claim.resolver = resolver;
    claim.resolution_notes = resolution_notes;

    if approve {
        policy.is_claimed = true;
        // The claim amount is earmarked: available falls, reserved rises, the
        // total stays. Reserved cannot overflow because the pool balances.
        pool.available_capital = pool.available_capital - claim.amount;
        pool.reserved_capital = pool.reserved_capital + claim.amount;
        Ok(
            Some(
                TransferRequest {
                    from: pool.token_account,
                    to: claimant_token,
                    authority: pool_id,
                    amount: claim.amount,
                },
            ),
        )
    } else {
        Ok(None)
    }
}

} // verus!
