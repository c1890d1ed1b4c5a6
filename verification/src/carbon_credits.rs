use vstd::prelude::*;

use crate::access_control::has_role;
use crate::errors::ErrorCode;
use crate::events::CarbonCreditsMinted;
use crate::state::AccountId;
use crate::state::CarbonToken;
use crate::state::UserRole;

verus! {

/// Creates the carbon-token record for a freshly provisioned mint.
///
/// The caller must hold the mint authority. The record starts with a zero
/// supply and active; provisioning of the mint itself is the external token
/// ledger's job and happens before this runs.
pub fn initialize_carbon_token(
    mint_authority_role: &UserRole,
    authority: AccountId,
    mint: AccountId,
    name: String,
    symbol: String,
    uri: String,
    co2_tonnes: u64,
    project_id: String,
    expiry_date: i64,
    issuer_name: String,
) -> (result: Result<CarbonToken, ErrorCode>)
    ensures
        match result {
            Ok(token) => {
                &&& mint_authority_role.spec_has_role(authority, "MINT_AUTHORITY"@)
                &&& token == (CarbonToken {
                    mint,
                    name,
                    symbol,
                    uri,
                    co2_tonnes,
                    project_id,
                    expiry_date,
                    issuer_name,
                    total_supply: 0,
                    is_active: true,
                })
            },
            Err(e) => {
                &&& !mint_authority_role.spec_has_role(authority, "MINT_AUTHORITY"@)
                &&& e == ErrorCode::InsufficientPermissions
            },
        },
{
    if !has_role(mint_authority_role, authority, "MINT_AUTHORITY") {
        return Err(ErrorCode::InsufficientPermissions);
    }
    Ok(
        CarbonToken {
            mint,
            name,
            symbol,
            uri,
            co2_tonnes,
            project_id,
            expiry_date,
            issuer_name,
            total_supply: 0,
            is_active: true,
        },
    )
}

/// Issues `amount` credits to `recipient`, growing the tracked supply.
///
/// The caller must hold the mint authority and the token must be active;
/// the supply update uses checked addition and fails without mutating on
/// overflow. The returned event instructs the external token ledger to
/// issue exactly `amount` units; substrate atomicity makes the ledger call
/// and the counter update one unit.
pub fn mint_carbon_credits(
    mint_authority_role: &UserRole,
    mint_authority: AccountId,
    carbon_token: &mut CarbonToken,
    recipient: AccountId,
    amount: u64,
    now: i64,
) -> (result: Result<CarbonCreditsMinted, ErrorCode>)
    ensures
        final(carbon_token).total_supply >= old(carbon_token).total_supply,
        match result {
            Ok(event) => {
                &&& mint_authority_role.spec_has_role(mint_authority, "MINT_AUTHORITY"@)
                &&& old(carbon_token).is_active
                &&& old(carbon_token).total_supply + amount <= u64::MAX
                &&& *final(carbon_token) == (CarbonToken {
                    total_supply: (old(carbon_token).total_supply + amount) as u64,
                    ..*old(carbon_token)
                })
                &&& event == (CarbonCreditsMinted {
                    mint: old(carbon_token).mint,
                    recipient,
                    amount,
                    timestamp: now,
                })
            },
            Err(e) => {
                &&& *final(carbon_token) == *old(carbon_token)
                &&& {
                    ||| {
                        &&& !mint_authority_role.spec_has_role(mint_authority, "MINT_AUTHORITY"@)
                        &&& e == ErrorCode::InsufficientPermissions
                    }
                    ||| {
                        &&& mint_authority_role.spec_has_role(mint_authority, "MINT_AUTHORITY"@)
                        &&& !old(carbon_token).is_active
                        &&& e == ErrorCode::TokenNotActive
                    }
                    ||| {
                        &&& mint_authority_role.spec_has_role(mint_authority, "MINT_AUTHORITY"@)
                        &&& old(carbon_token).is_active
                        &&& old(carbon_token).total_supply + amount > u64::MAX
                        &&& e == ErrorCode::ArithmeticOverflow
                    }
                }
            },
        },
{
    if !has_role(mint_authority_role, mint_authority, "MINT_AUTHORITY") {
        return Err(ErrorCode::InsufficientPermissions);
    }
    if !carbon_token.is_active {
        return Err(ErrorCode::TokenNotActive);
    }
    match carbon_token.total_supply.checked_add(amount) {
        Some(new_supply) => {
            carbon_token.total_supply = new_supply;
            Ok(
                CarbonCreditsMinted {
                    mint: carbon_token.mint,
                    recipient,
                    amount,
                    timestamp: now,
                },
            )
        },
        None => Err(ErrorCode::ArithmeticOverflow),
    }
}

} // verus!
