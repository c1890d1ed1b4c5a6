use carbon_rwa::access_control::assign_user_to_role;
use carbon_rwa::access_control::create_role;
use carbon_rwa::access_control::initialize_access_control;
use carbon_rwa::carbon_credits::initialize_carbon_token;
use carbon_rwa::carbon_credits::mint_carbon_credits;
use carbon_rwa::errors::ErrorCode;
use carbon_rwa::state::CarbonToken;
use carbon_rwa::state::UserRole;

const ADMIN: u64 = 1;
const CONTROLLER_KEY: u64 = 100;
const USER_A: u64 = 10;
const USER_B: u64 = 11;
const MINT: u64 = 200;
const RECIPIENT: u64 = 12;

fn mint_authority_role_with(member: u64) -> UserRole {
    let controller = initialize_access_control(ADMIN);
    let mut role = create_role(
        &controller,
        CONTROLLER_KEY,
        ADMIN,
        String::from("MINT_AUTHORITY"),
        vec![String::from("MINT_AUTHORITY")],
    )
    .unwrap();
    assign_user_to_role(&controller, ADMIN, &mut role, member).unwrap();
    role
}

fn fresh_token(role: &UserRole, caller: u64) -> Result<CarbonToken, ErrorCode> {
    initialize_carbon_token(
        role,
        caller,
        MINT,
        String::from("Carbon Credit"),
        String::from("CO2"),
        String::from("https://example.org/meta"),
        1,
        String::from("PRJ-1"),
        2_000_000_000,
        String::from("Issuer"),
    )
}

#[test]
fn initialize_token_starts_with_zero_supply_and_active() {
    let role = mint_authority_role_with(USER_A);
    let token = fresh_token(&role, USER_A).unwrap();
    assert_eq!(token.mint, MINT);
    assert_eq!(token.name, "Carbon Credit");
    assert_eq!(token.symbol, "CO2");
    assert_eq!(token.total_supply, 0);
    assert!(token.is_active);
}

#[test]
fn initialize_token_without_role_fails() {
    let role = mint_authority_role_with(USER_A);
    let r = fresh_token(&role, USER_B);
    assert_eq!(r.unwrap_err(), ErrorCode::InsufficientPermissions);
}

#[test]
fn mint_grows_supply_and_reports_event() {
    // Admin creates the MINT_AUTHORITY role with the MINT_AUTHORITY action,
    // assigns user A; A mints 1000 credits on an active token of supply 0.
    let role = mint_authority_role_with(USER_A);
    let mut token = fresh_token(&role, USER_A).unwrap();
    let event = mint_carbon_credits(&role, USER_A, &mut token, RECIPIENT, 1000, 42).unwrap();
    assert_eq!(token.total_supply, 1000);
    assert_eq!(event.amount, 1000);
    assert_eq!(event.mint, MINT);
    assert_eq!(event.recipient, RECIPIENT);
    assert_eq!(event.timestamp, 42);
}

#[test]
fn mint_by_non_member_fails() {
    let role = mint_authority_role_with(USER_A);
    let mut token = fresh_token(&role, USER_A).unwrap();
    let r = mint_carbon_credits(&role, USER_B, &mut token, RECIPIENT, 1000, 42);
    assert_eq!(r.unwrap_err(), ErrorCode::InsufficientPermissions);
    assert_eq!(token.total_supply, 0);
}

#[test]
fn mint_on_inactive_token_fails() {
    let role = mint_authority_role_with(USER_A);
    let mut token = fresh_token(&role, USER_A).unwrap();
    token.is_active = false;
    let r = mint_carbon_credits(&role, USER_A, &mut token, RECIPIENT, 1, 42);
    assert_eq!(r.unwrap_err(), ErrorCode::TokenNotActive);
    assert_eq!(token.total_supply, 0);
}

#[test]
fn mint_overflow_fails_without_mutation() {
    let role = mint_authority_role_with(USER_A);
    let mut token = fresh_token(&role, USER_A).unwrap();
    mint_carbon_credits(&role, USER_A, &mut token, RECIPIENT, u64::MAX, 42).unwrap();
    assert_eq!(token.total_supply, u64::MAX);
    let r = mint_carbon_credits(&role, USER_A, &mut token, RECIPIENT, 1, 43);
    assert_eq!(r.unwrap_err(), ErrorCode::ArithmeticOverflow);
    assert_eq!(token.total_supply, u64::MAX);
}
