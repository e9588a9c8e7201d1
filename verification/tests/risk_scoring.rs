use solana_insurance_protocol::risk_assessment::{
    assess_code_risk, assess_economic_risk, assess_operational_risk,
    calculate_composite_risk_score, calculate_premium_amount, calculate_premium_rate,
};

#[test]
fn code_risk_heavily_audited_no_bounty() {
    // audit factor 0, bounty factor 100 (no bounty), complexity factor 0:
    // mean truncates to 33.
    assert_eq!(assess_code_risk(5, 0, 0), 33);
}

#[test]
fn code_risk_bounty_tiers() {
    // audit factor 100 (no audits), complexity factor 0.
    assert_eq!(assess_code_risk(0, 0, 0), 66); // (100 + 100 + 0) / 3
    assert_eq!(assess_code_risk(0, 50_000, 0), 58); // (100 + 75 + 0) / 3
    assert_eq!(assess_code_risk(0, 250_000, 0), 50); // (100 + 50 + 0) / 3
    assert_eq!(assess_code_risk(0, 1_000_000, 0), 41); // (100 + 25 + 0) / 3
    assert_eq!(assess_code_risk(0, 1_000_001, 0), 33); // (100 + 0 + 0) / 3
}

#[test]
fn code_risk_caps_audits_and_complexity() {
    // More than five audits still zeroes the audit factor; complexity above
    // 100 is clamped to 100.
    assert_eq!(assess_code_risk(200, 0, 255), (0 + 100 + 100) / 3);
}

#[test]
fn economic_risk_brackets() {
    assert_eq!(assess_economic_risk(500_000, 50_000, 30), (25 + 100 + 30) / 3);
    assert_eq!(assess_economic_risk(5_000_000, 500_000, 0), (50 + 75 + 0) / 3);
    assert_eq!(assess_economic_risk(50_000_000, 5_000_000, 100), (75 + 50 + 100) / 3);
    assert_eq!(assess_economic_risk(200_000_000, 50_000_000, 0), (100 + 25 + 0) / 3);
}

#[test]
fn operational_risk_factors() {
    // governance 70, admin 60, oracle 100.
    assert_eq!(assess_operational_risk(3, 2, true), 76);
    // governance and admin counts cap at 10 and 5.
    assert_eq!(assess_operational_risk(50, 9, false), 0);
}

#[test]
fn composite_score_weights() {
    // (30*30 + 100*40 + 0*30) / 100 = 49.
    assert_eq!(calculate_composite_risk_score(30, 100, 0), 49);
    assert_eq!(calculate_composite_risk_score(0, 0, 0), 0);
    assert_eq!(calculate_composite_risk_score(100, 100, 100), 100);
}

#[test]
fn premium_rate_tiers() {
    assert_eq!(calculate_premium_rate(0), 25);
    assert_eq!(calculate_premium_rate(25), 25);
    assert_eq!(calculate_premium_rate(26), 50);
    assert_eq!(calculate_premium_rate(49), 50);
    assert_eq!(calculate_premium_rate(50), 50);
    assert_eq!(calculate_premium_rate(51), 100);
    assert_eq!(calculate_premium_rate(75), 100);
    assert_eq!(calculate_premium_rate(76), 200);
    assert_eq!(calculate_premium_rate(100), 200);
}

#[test]
fn premium_amount_truncates_at_each_step() {
    // annual = 1_000_000 * 50 / 10000 = 5000; daily = 5000 / 365 = 13;
    // premium = 13 * 30 = 390. The truncation order is part of the contract.
    assert_eq!(calculate_premium_amount(1_000_000, 50, 30), 390);
}

#[test]
fn premium_amount_edge_values() {
    assert_eq!(calculate_premium_amount(0, 200, 365), 0);
    assert_eq!(calculate_premium_amount(1_000_000, 50, 0), 0);
    // annual = 10_000; daily = 27; premium = 27 * 365 = 9855.
    assert_eq!(calculate_premium_amount(1_000_000, 100, 365), 9855);
}
