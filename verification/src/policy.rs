//! Policy ledger: records time-boxed coverage contracts. Pricing is the
//! caller's business — a policy is expected to have been priced with the risk
//! scoring engine beforehand; this ledger only records and enforces the terms.

use crate::errors::ErrorCode;
use crate::protocol::ProtocolInfo;
use crate::transfer::{AccountId, TransferRequest};
use vstd::prelude::*;

verus! {

/// One coverage contract between an insured party and a protocol. The host
/// keys the policy by (insured, protocol).
#[derive(Clone, Copy, Debug, PartialEq, Eq, Structural)]
pub struct Policy {
    /// Identity the coverage protects.
    pub insured: AccountId,
    /// Key of the insured protocol's record.
    pub protocol: AccountId,
    /// Largest amount a claim may draw.
    pub coverage_amount: u64,
    /// Premium paid for the coverage.
    pub premium_amount: u64,
    /// When the coverage window opens.
    pub start_time: i64,
    /// When the coverage window closes.
    pub end_time: i64,
    /// Whether the policy is live.
    pub is_active: bool,
    /// Whether a claim has already paid out against it.
    pub is_claimed: bool,
}

/// Sells a policy on an active protocol: the coverage window opens at `now`
/// and closes `duration_days` whole days later.
///
/// Fails with `ProtocolNotActive` when the protocol's active flag is false,
/// and with `NumericOverflow` when the window's end does not fit a timestamp.
/// On success the host must move the premium from the insured's token account
/// to the protocol's treasury as the returned request says, and discard the
/// policy if that transfer fails.
pub fn create_policy(
    protocol_info: &ProtocolInfo,
    protocol_id: AccountId,
    insured: AccountId,
    insured_token: AccountId,
    treasury_token: AccountId,
    coverage_amount: u64,
    premium_amount: u64,
    duration_days: u16,
    now: i64,
) -> (result: Result<(Policy, TransferRequest), ErrorCode>)
    ensures
        (result matches Err(e) && e == ErrorCode::ProtocolNotActive) <==> !protocol_info.is_active,
        (result matches Err(e) && e == ErrorCode::NumericOverflow) <==> {
            &&& protocol_info.is_active
            &&& now + duration_days * 86400 > i64::MAX
        },
        result is Ok <==> protocol_info.is_active && now + duration_days * 86400 <= i64::MAX,
        result matches Ok((policy, transfer)) ==> {
            &&& policy == (Policy {
                insured,
                protocol: protocol_id,
                coverage_amount,
                premium_amount,
                start_time: now,
                end_time: (now + duration_days * 86400) as i64,
                is_active: true,
                is_claimed: false,
            })
            &&& transfer == (TransferRequest {
                from: insured_token,
                to: treasury_token,
                authority: insured,
                amount: premium_amount,
            })
        },
{
    if !protocol_info.is_active {
        return Err(ErrorCode::ProtocolNotActive);
    }
    let window: i64 = (duration_days as i64) * 86400;
    if now > i64::MAX - window {
        return Err(ErrorCode::NumericOverflow);
    }
    let policy = Policy {
        insured,
        protocol: protocol_id,
        coverage_amount,
        premium_amount,
        start_time: now,
        end_time: now + window,
        is_active: true,
        is_claimed: false,
    };
    let transfer = TransferRequest {
        from: insured_token,
        to: treasury_token,
        authority: insured,
        amount: premium_amount,
    };
    Ok((policy, transfer))
}

} // verus!
