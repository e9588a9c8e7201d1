//! Protocol directory: the global protocol state, the registry of insured
//! protocols, and the authority-gated risk update that feeds the risk scoring
//! engine with a protocol's stored TVL and fresh caller-supplied metrics.

use crate::errors::ErrorCode;
use crate::risk_assessment::{
    assess_code_risk, assess_economic_risk, assess_operational_risk, calculate_composite_risk_score,
    code_risk, composite_risk_score, economic_risk, operational_risk,
};
use crate::transfer::AccountId;
use vstd::prelude::*;

verus! {

/// Global state of the insurance protocol itself.
#[derive(Clone, Copy, Debug, PartialEq, Eq, Structural)]
pub struct ProtocolState {
    /// Global authority, allowed to update any protocol's risk score.
    pub authority: AccountId,
    /// Fee configured at initialization.
    pub protocol_fee: u64,
}

/// Registry of insured protocols. `authorities` models the set of keys at
/// which protocol records exist: the host keys a protocol record by the
/// authority that registered it, so registering the same authority twice must
/// fail rather than overwrite.
#[derive(Clone, Debug, PartialEq, Eq)]
pub struct ProtocolRegistry {
    /// How many protocols were ever registered.
    pub protocol_count: u64,
    /// The authorities under which a protocol record exists.
    pub authorities: Vec<AccountId>,
}

impl ProtocolRegistry {
    /// The registry counts exactly its records, and no authority is
    /// registered twice.
    pub open spec fn wf(self) -> bool {
        &&& self.protocol_count == self.authorities@.len()
        &&& forall|i: int, j: int|
            0 <= i < j < self.authorities@.len() ==> self.authorities@[i] != self.authorities@[j]
    }

    /// Whether a protocol record exists under this authority.
    pub open spec fn registered(self, authority: AccountId) -> bool {
        self.authorities@.contains(authority)
    }
}

/// One insured protocol's record.
#[derive(Clone, Debug, PartialEq, Eq)]
pub struct ProtocolInfo {
    /// Authority that registered the protocol and may update its risk.
    pub authority: AccountId,
    /// Display name.
    pub protocol_name: String,
    /// Total value locked, in the quote currency: an external input.
    pub tvl_usd: u64,
    /// Composite risk score, 0..=100.
    pub risk_score: u8,
    /// Whether policies may be sold on this protocol.
    pub is_active: bool,
}

/// Caller-supplied code risk metrics.
#[derive(Clone, Copy, Debug, PartialEq, Eq, Structural)]
pub struct CodeRiskParams {
    /// Number of completed audits.
    pub audit_count: u8,
    /// Size of the bug bounty program, in the quote currency.
    pub bug_bounty_size: u64,
    /// Code complexity score, clamped to 0..=100 by the engine.
    pub complexity_score: u8,
}

/// Caller-supplied economic risk metrics.
#[derive(Clone, Copy, Debug, PartialEq, Eq, Structural)]
pub struct EconomicRiskParams {
    /// Market depth available to exit positions.
    pub liquidity_depth: u64,
    /// Concentration risk on the 0..=100 scale, trusted as-is.
    pub concentration_risk: u8,
}

/// Caller-supplied operational risk metrics.
#[derive(Clone, Copy, Debug, PartialEq, Eq, Structural)]
pub struct OperationalRiskParams {
    /// Number of governance participants.
    pub governance_count: u8,
    /// Number of admin keys.
    pub admin_count: u8,
    /// Whether the protocol depends on an oracle.
    pub oracle_dependency: bool,
}

/// Creates the global protocol state and an empty registry.
pub fn initialize(authority: AccountId, protocol_fee: u64) -> (result: (
    ProtocolState,
    ProtocolRegistry,
))
    ensures
        result.0 == (ProtocolState { authority, protocol_fee }),
        result.1.protocol_count == 0,
        result.1.authorities@ =~= Seq::<AccountId>::empty(),
        result.1.wf(),
{
    let state = ProtocolState { authority, protocol_fee };
    let registry = ProtocolRegistry { protocol_count: 0, authorities: Vec::new() };
    (state, registry)
}

/// Whether `authority` already has a registered protocol record.
fn registry_contains(authorities: &Vec<AccountId>, authority: AccountId) -> (found: bool)
    ensures
        found == authorities@.contains(authority),
{
    let mut i: usize = 0;
    while i < authorities.len()
        invariant
            i <= authorities@.len(),
            forall|k: int| 0 <= k < i ==> authorities@[k] != authority,
        decreases authorities@.len() - i,
    {
        if authorities[i] == authority {
            return true;
        }
        i = i + 1;
    }
    false
}

/// Registers a protocol under `authority` with a default medium risk score of
/// 50 and an active flag, and counts it in the registry.
///
/// Fails with `ProtocolAlreadyRegistered` when a record already exists under
/// this authority — never overwrites — and with `NumericOverflow` when the
/// counter cannot grow; on any error the registry is unchanged.
pub fn register_protocol(
    registry: &mut ProtocolRegistry,
    authority: AccountId,
    protocol_name: String,
    tvl_usd: u64,
) -> (result: Result<ProtocolInfo, ErrorCode>)
    requires
        old(registry).wf(),
    ensures
        final(registry).wf(),
        result is Err ==> *final(registry) == *old(registry),
        (result matches Err(e) && e == ErrorCode::ProtocolAlreadyRegistered) <==> old(
            registry,
        ).registered(authority),
        (result matches Err(e) && e == ErrorCode::NumericOverflow) <==> {
            &&& !old(registry).registered(authority)
            &&& old(registry).protocol_count == u64::MAX
        },
        result is Ok <==> !old(registry).registered(authority) && old(registry).protocol_count
            < u64::MAX,
        result matches Ok(info) ==> {
            &&& info.authority == authority
            &&& info.protocol_name == protocol_name
            &&& info.tvl_usd == tvl_usd
            &&& info.risk_score == 50
            &&& info.is_active == true
            &&& final(registry).protocol_count == old(registry).protocol_count + 1
            &&& final(registry).authorities@ =~= old(registry).authorities@.push(authority)
            &&& final(registry).registered(authority)
        },
{
    if registry_contains(&registry.authorities, authority) {
        return Err(ErrorCode::ProtocolAlreadyRegistered);
    }
    if registry.protocol_count == u64::MAX {
        return Err(ErrorCode::NumericOverflow);
    }
    registry.authorities.push(authority);
    registry.protocol_count = registry.protocol_count + 1;
    proof {
        assert(registry.authorities@[registry.authorities@.len() - 1] == authority);
        assert(registry.authorities@.contains(authority));
    }
    Ok(ProtocolInfo { authority, protocol_name, tvl_usd, risk_score: 50, is_active: true })
}

/// Recomputes a protocol's composite risk score from caller-supplied metrics
/// and the protocol's stored TVL.
///
/// Only the protocol's own authority or the global protocol-state authority
/// may update; anyone else gets `UnauthorizedAccess` and changes nothing.
pub fn update_protocol_risk(
    protocol_info: &mut ProtocolInfo,
    protocol_state: &ProtocolState,
    caller: AccountId,
    code_risk_params: CodeRiskParams,
    economic_risk_params: EconomicRiskParams,
    operational_risk_params: OperationalRiskParams,
) -> (result: Result<(), ErrorCode>)
    requires
        economic_risk_params.concentration_risk <= 100,
    ensures
        result is Err <==> caller != old(protocol_info).authority && caller
            != protocol_state.authority,
        result matches Err(e) ==> e == ErrorCode::UnauthorizedAccess && *final(protocol_info)
            == *old(protocol_info),
        result is Ok ==> {
            &&& final(protocol_info).risk_score == composite_risk_score(
                code_risk(
                    code_risk_params.audit_count,
                    code_risk_params.bug_bounty_size,
                    code_risk_params.complexity_score,
                ),
                economic_risk(
                    old(protocol_info).tvl_usd,
                    economic_risk_params.liquidity_depth,
                    economic_risk_params.concentration_risk,
                ),
                operational_risk(
                    operational_risk_params.governance_count,
                    operational_risk_params.admin_count,
                    operational_risk_params.oracle_dependency,
                ),
            )
            &&& final(protocol_info).authority == old(protocol_info).authority
            &&& final(protocol_info).protocol_name == old(protocol_info).protocol_name
            &&& final(protocol_info).tvl_usd == old(protocol_info).tvl_usd
            &&& final(protocol_info).is_active == old(protocol_info).is_active
        },
{
    if !(caller == protocol_info.authority || caller == protocol_state.authority) {
        return Err(ErrorCode::UnauthorizedAccess);
    }
    let code = assess_code_risk(
        code_risk_params.audit_count,
        code_risk_params.bug_bounty_size,
        code_risk_params.complexity_score,
    );
    let economic = assess_economic_risk(
        protocol_info.tvl_usd,
        economic_risk_params.liquidity_depth,
        economic_risk_params.concentration_risk,
    );
    let operational = assess_operational_risk(
        operational_risk_params.governance_count,
        operational_risk_params.admin_count,
        operational_risk_params.oracle_dependency,
    );
    protocol_info.risk_score = calculate_composite_risk_score(code, economic, operational);
    Ok(())
}

} // verus!
