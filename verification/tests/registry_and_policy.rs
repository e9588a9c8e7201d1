use solana_insurance_protocol::errors::ErrorCode;
use solana_insurance_protocol::policy::create_policy;
use solana_insurance_protocol::protocol::{
    initialize, register_protocol, update_protocol_risk, CodeRiskParams, EconomicRiskParams,
    OperationalRiskParams, ProtocolInfo,
};

const GLOBAL_AUTHORITY: u64 = 1;
const PROTOCOL_AUTHORITY: u64 = 50;
const PROTOCOL_ID: u64 = 51;
const INSURED: u64 = 60;
const INSURED_TOKEN: u64 = 61;
const TREASURY_TOKEN: u64 = 62;

#[test]
fn initialize_sets_state_and_empty_registry() {
    let (state, registry) = initialize(GLOBAL_AUTHORITY, 250);
    assert_eq!(state.authority, GLOBAL_AUTHORITY);
    assert_eq!(state.protocol_fee, 250);
    assert_eq!(registry.protocol_count, 0);
    assert!(registry.authorities.is_empty());
}

#[test]
fn register_protocol_starts_at_medium_risk() {
    let (_, mut registry) = initialize(GLOBAL_AUTHORITY, 250);
    let info = register_protocol(
        &mut registry,
        PROTOCOL_AUTHORITY,
        String::from("lending-desk"),
        5_000_000,
    )
    .unwrap();
    assert_eq!(info.authority, PROTOCOL_AUTHORITY);
    assert_eq!(info.protocol_name, "lending-desk");
    assert_eq!(info.tvl_usd, 5_000_000);
    assert_eq!(info.risk_score, 50);
    assert!(info.is_active);
    assert_eq!(registry.protocol_count, 1);
}

#[test]
fn registering_the_same_authority_twice_fails() {
    let (_, mut registry) = initialize(GLOBAL_AUTHORITY, 250);
    register_protocol(&mut registry, PROTOCOL_AUTHORITY, String::from("first"), 1_000).unwrap();
    let before = registry.clone();
    let result =
        register_protocol(&mut registry, PROTOCOL_AUTHORITY, String::from("second"), 2_000);
    assert_eq!(result.unwrap_err(), ErrorCode::ProtocolAlreadyRegistered);
    assert_eq!(registry, before);
    // A different authority still registers fine.
    assert!(register_protocol(&mut registry, 77, String::from("third"), 3_000).is_ok());
    assert_eq!(registry.protocol_count, 2);
}

fn registered_info() -> ProtocolInfo {
    let (_, mut registry) = initialize(GLOBAL_AUTHORITY, 250);
    register_protocol(&mut registry, PROTOCOL_AUTHORITY, String::from("lending-desk"), 5_000_000)
        .unwrap()
}

#[test]
fn protocol_authority_updates_risk_score() {
    let (state, _) = initialize(GLOBAL_AUTHORITY, 250);
    let mut info = registered_info();
    update_protocol_risk(
        &mut info,
        &state,
        PROTOCOL_AUTHORITY,
        CodeRiskParams { audit_count: 5, bug_bounty_size: 0, complexity_score: 0 },
        EconomicRiskParams { liquidity_depth: 50_000, concentration_risk: 30 },
        OperationalRiskParams { governance_count: 3, admin_count: 2, oracle_dependency: true },
    )
    .unwrap();
    // code = (0 + 100 + 0) / 3 = 33; economic over the stored 5M TVL
    // = (50 + 100 + 30) / 3 = 60; operational = (70 + 60 + 100) / 3 = 76;
    // composite = (33*30 + 60*40 + 76*30) / 100 = 56.
    assert_eq!(info.risk_score, 56);
    assert_eq!(info.tvl_usd, 5_000_000);
    assert_eq!(info.protocol_name, "lending-desk");
}

#[test]
fn global_authority_may_update_any_protocol() {
    let (state, _) = initialize(GLOBAL_AUTHORITY, 250);
    let mut info = registered_info();
    let result = update_protocol_risk(
        &mut info,
        &state,
        GLOBAL_AUTHORITY,
        CodeRiskParams { audit_count: 0, bug_bounty_size: 0, complexity_score: 0 },
        EconomicRiskParams { liquidity_depth: 0, concentration_risk: 0 },
        OperationalRiskParams { governance_count: 0, admin_count: 0, oracle_dependency: false },
    );
    assert!(result.is_ok());
}

#[test]
fn stranger_cannot_update_risk() {
    let (state, _) = initialize(GLOBAL_AUTHORITY, 250);
    let mut info = registered_info();
    let before = info.clone();
    let result = update_protocol_risk(
        &mut info,
        &state,
        999,
        CodeRiskParams { audit_count: 0, bug_bounty_size: 0, complexity_score: 0 },
        EconomicRiskParams { liquidity_depth: 0, concentration_risk: 0 },
        OperationalRiskParams { governance_count: 0, admin_count: 0, oracle_dependency: false },
    );
    assert_eq!(result.unwrap_err(), ErrorCode::UnauthorizedAccess);
    assert_eq!(info, before);
}

#[test]
fn create_policy_opens_a_thirty_day_window() {
    let info = registered_info();
    let now: i64 = 1_700_000_000;
    let (policy, transfer) = create_policy(
        &info,
        PROTOCOL_ID,
        INSURED,
        INSURED_TOKEN,
        TREASURY_TOKEN,
        1_000_000,
        390,
        30,
        now,
    )
    .unwrap();
    assert_eq!(policy.insured, INSURED);
    assert_eq!(policy.protocol, PROTOCOL_ID);
    assert_eq!(policy.coverage_amount, 1_000_000);
    assert_eq!(policy.premium_amount, 390);
    assert_eq!(policy.start_time, now);
    assert_eq!(policy.end_time, now + 30 * 86400);
    assert!(policy.is_active);
    assert!(!policy.is_claimed);
    // The premium moves from the insured to the treasury, signed by the insured.
    assert_eq!(transfer.from, INSURED_TOKEN);
    assert_eq!(transfer.to, TREASURY_TOKEN);
    assert_eq!(transfer.authority, INSURED);
    assert_eq!(transfer.amount, 390);
}

#[test]
fn create_policy_on_inactive_protocol_fails() {
    let mut info = registered_info();
    info.is_active = false;
    let result = create_policy(
        &info,
        PROTOCOL_ID,
        INSURED,
        INSURED_TOKEN,
        TREASURY_TOKEN,
        1_000_000,
        390,
        30,
        0,
    );
    assert_eq!(result.unwrap_err(), ErrorCode::ProtocolNotActive);
}

#[test]
fn create_policy_whose_window_leaves_time_fails() {
    let info = registered_info();
    let result = create_policy(
        &info,
        PROTOCOL_ID,
        INSURED,
        INSURED_TOKEN,
        TREASURY_TOKEN,
        1_000_000,
        390,
        30,
        i64::MAX - 86400,
    );
    assert_eq!(result.unwrap_err(), ErrorCode::NumericOverflow);
}
