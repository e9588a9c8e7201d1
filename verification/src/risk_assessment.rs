//! Risk scoring engine: pure formulas from raw protocol metrics to a 0..=100
//! composite risk score and an annualized premium, all in integer arithmetic
//! that truncates toward zero at each division.

use vstd::prelude::*;

verus! {

use vstd::arithmetic::div_mod::lemma_div_is_ordered;
use vstd::arithmetic::mul::lemma_mul_upper_bound;

/// Weight of code risk in the composite score, out of 100.
pub open const CODE_RISK_WEIGHT: u8 = 30;

/// Weight of economic risk in the composite score, out of 100.
pub open const ECONOMIC_RISK_WEIGHT: u8 = 40;

/// Weight of operational risk in the composite score, out of 100.
pub open const OPERATIONAL_RISK_WEIGHT: u8 = 30;

/// Audit factor: each audit up to the fifth shaves 20 points off 100.
pub open spec fn audit_factor(audit_count: u8) -> int {
    100 - (if audit_count < 5 { audit_count as int } else { 5 }) * 20
}

/// Bounty factor: fixed tiers, a larger bug bounty means less risk.
pub open spec fn bounty_factor(bug_bounty_size: u64) -> int {
    if bug_bounty_size == 0 {
        100
    } else if bug_bounty_size <= 50_000 {
        75
    } else if bug_bounty_size <= 250_000 {
        50
    } else if bug_bounty_size <= 1_000_000 {
        25
    } else {
        0
    }
}

/// Complexity factor: the caller's complexity score, clamped to 0..=100.
pub open spec fn complexity_factor(complexity_score: u8) -> int {
    if complexity_score < 100 {
        complexity_score as int
    } else {
        100
    }
}

/// Code risk: unweighted mean of audit, bounty and complexity factors.
pub open spec fn code_risk(audit_count: u8, bug_bounty_size: u64, complexity_score: u8) -> int {
    (audit_factor(audit_count) + bounty_factor(bug_bounty_size) + complexity_factor(
        complexity_score,
    )) / 3
}

/// TVL factor: risk rises in bracketed steps as more value is locked.
pub open spec fn tvl_factor(tvl_usd: u64) -> int {
    if tvl_usd <= 1_000_000 {
        25
    } else if tvl_usd <= 10_000_000 {
        50
    } else if tvl_usd <= 100_000_000 {
        75
    } else {
        100
    }
}

/// Liquidity factor: risk falls in bracketed steps as depth grows.
pub open spec fn liquidity_factor(liquidity_depth: u64) -> int {
    if liquidity_depth <= 100_000 {
        100
    } else if liquidity_depth <= 1_000_000 {
        75
    } else if liquidity_depth <= 10_000_000 {
        50
    } else {
        25
    }
}

/// Economic risk: mean of TVL, liquidity and concentration factors, where the
/// concentration risk is the caller's value passed through as-is.
pub open spec fn economic_risk(tvl_usd: u64, liquidity_depth: u64, concentration_risk: u8) -> int {
    (tvl_factor(tvl_usd) + liquidity_factor(liquidity_depth) + concentration_risk) / 3
}

/// Governance factor: each participant up to the tenth shaves 10 points.
pub open spec fn governance_factor(governance_count: u8) -> int {
    100 - (if governance_count < 10 { governance_count as int } else { 10 }) * 10
}

/// Admin factor: each admin up to the fifth shaves 20 points.
pub open spec fn admin_factor(admin_count: u8) -> int {
    100 - (if admin_count < 5 { admin_count as int } else { 5 }) * 20
}

/// Oracle factor: 100 when the protocol depends on an oracle, else 0.
pub open spec fn oracle_factor(oracle_dependency: bool) -> int {
    if oracle_dependency {
        100
    } else {
        0
    }
}

/// Operational risk: mean of governance, admin and oracle factors.
pub open spec fn operational_risk(
    governance_count: u8,
    admin_count: u8,
    oracle_dependency: bool,
) -> int {
    (governance_factor(governance_count) + admin_factor(admin_count) + oracle_factor(
        oracle_dependency,
    )) / 3
}

/// Composite score: weighted sum of the three component risks (economic risk
/// dominates), divided by the total weight of 100.
pub open spec fn composite_risk_score(code_risk: int, economic_risk: int, operational_risk: int) -> int {
    (code_risk * CODE_RISK_WEIGHT + economic_risk * ECONOMIC_RISK_WEIGHT + operational_risk
        * OPERATIONAL_RISK_WEIGHT) / 100
}

/// Annual premium rate in basis points for a given risk score: fixed tiers.
pub open spec fn premium_rate(risk_score: u8) -> int {
    if risk_score <= 25 {
        25
    } else if risk_score <= 50 {
        50
    } else if risk_score <= 75 {
        100
    } else {
        200
    }
}

/// Premium owed for a coverage amount at a rate over a duration:
/// `coverage * rate / 10000 / 365 * days`, truncating at each division.
pub open spec fn premium_amount(
    coverage_amount: u64,
    premium_rate_bps: u64,
    duration_days: u16,
) -> int {
    coverage_amount * premium_rate_bps / 10000 / 365 * duration_days
}

/// Scores how risky a protocol's code is, 0..=100. More audits, a larger bug
/// bounty, and lower complexity all reduce the score.
pub fn assess_code_risk(audit_count: u8, bug_bounty_size: u64, complexity_score: u8) -> (score: u8)
    ensures
        score == code_risk(audit_count, bug_bounty_size, complexity_score),
        score <= 100,
{
    let audit_factor: u16 = 100 - (if audit_count < 5 {
        audit_count as u16
    } else {
        5
    }) * 20;
    let bounty_factor: u16 = if bug_bounty_size == 0 {
        100
    } else if bug_bounty_size <= 50_000 {
        75
    } else if bug_bounty_size <= 250_000 {
        50
    } else if bug_bounty_size <= 1_000_000 {
        25
    } else {
        0
    };
    let complexity_factor: u16 = if complexity_score < 100 {
        complexity_score as u16
    } else {
        100
    };
    ((audit_factor + bounty_factor + complexity_factor) / 3) as u8
}

/// Scores a protocol's economic risk, 0..=100. Higher TVL, lower liquidity
/// depth and higher concentration all raise the score. The concentration risk
/// is trusted to be on the 0..=100 scale already.
pub fn assess_economic_risk(tvl_usd: u64, liquidity_depth: u64, concentration_risk: u8) -> (score:
    u8)
    requires
        concentration_risk <= 100,
    ensures
        score == economic_risk(tvl_usd, liquidity_depth, concentration_risk),
        score <= 100,
{
    let tvl_factor: u16 = if tvl_usd <= 1_000_000 {
        25
    } else if tvl_usd <= 10_000_000 {
        50
    } else if tvl_usd <= 100_000_000 {
        75
    } else {
        100
    };
    let liquidity_factor: u16 = if liquidity_depth <= 100_000 {
        100
    } else if liquidity_depth <= 1_000_000 {
        75
    } else if liquidity_depth <= 10_000_000 {
        50
    } else {
        25
    };
    ((tvl_factor + liquidity_factor + concentration_risk as u16) / 3) as u8
}

/// Scores a protocol's operational risk, 0..=100. More governance
/// participants and admins reduce the score; oracle dependency raises it.
pub fn assess_operational_risk(
    governance_count: u8,
    admin_count: u8,
    oracle_dependency: bool,
) -> (score: u8)
    ensures
        score == operational_risk(governance_count, admin_count, oracle_dependency),
        score <= 100,
{
    let governance_factor: u16 = 100 - (if governance_count < 10 {
        governance_count as u16
    } else {
        10
    }) * 10;
    let admin_factor: u16 = 100 - (if admin_count < 5 {
        admin_count as u16
    } else {
        5
    }) * 20;
    let oracle_factor: u16 = if oracle_dependency {
        100
    } else {
        0
    };
    ((governance_factor + admin_factor + oracle_factor) / 3) as u8
}

/// Blends the three component risks into the composite score that drives
/// premium pricing. Stays within 0..=100 whenever the components do.
pub fn calculate_composite_risk_score(
    code_risk: u8,
    economic_risk: u8,
    operational_risk: u8,
) -> (score: u8)
    ensures
        score == composite_risk_score(code_risk as int, economic_risk as int, operational_risk as int),
        code_risk <= 100 && economic_risk <= 100 && operational_risk <= 100 ==> score <= 100,
{
    let weighted: u16 = code_risk as u16 * 30 + economic_risk as u16 * 40 + operational_risk as u16
        * 30;
    (weighted / 100) as u8
}

/// Annual premium rate in basis points owed for a risk score.
pub fn calculate_premium_rate(risk_score: u8) -> (rate_bps: u64)
    ensures
        rate_bps == premium_rate(risk_score),
{
    if risk_score <= 25 {
        25
    } else if risk_score <= 50 {
        50
    } else if risk_score <= 75 {
        100
    } else {
        200
    }
}

/// Premium owed for `coverage_amount` at `premium_rate_bps` over
/// `duration_days`, truncating toward zero at each division in turn.
pub fn calculate_premium_amount(
    coverage_amount: u64,
    premium_rate_bps: u64,
    duration_days: u16,
) -> (premium: u64)
    requires
        coverage_amount * premium_rate_bps <= u64::MAX,
    ensures
        premium == premium_amount(coverage_amount, premium_rate_bps, duration_days),
{
    let annual_premium: u64 = (coverage_amount * premium_rate_bps) / 10000;
    let daily_premium: u64 = annual_premium / 365;
    proof {
        lemma_div_is_ordered(coverage_amount * premium_rate_bps, u64::MAX as int, 10000);
        lemma_div_is_ordered(annual_premium as int, u64::MAX as int / 10000, 365);
        lemma_mul_upper_bound(
            daily_premium as int,
            u64::MAX as int / 10000 / 365,
            duration_days as int,
            u16::MAX as int,
        );
    }
    daily_premium * (duration_days as u64)
}

} // verus!
