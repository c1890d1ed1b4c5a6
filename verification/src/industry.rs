use vstd::prelude::*;

use crate::access_control::has_role;
use crate::errors::ErrorCode;
use crate::events::EmissionsReported;
use crate::events::IndustryOnboarded;
use crate::state::AccountId;
use crate::state::ComplianceStatus;
use crate::state::Industry;
use crate::state::UserRole;

verus! {

/// Credits burned by one report: the full requested tonnage when the
/// balance covers it, else the entire available balance.
pub open spec fn spec_burned_this_call(co2_tonnes: u64, current_balance: u64) -> u64 {
    if current_balance >= co2_tonnes {
        co2_tonnes
    } else {
        current_balance
    }
}

/// Onboards an industry participant, creating its compliance record.
///
/// The caller must hold the KYC authority. The record starts active,
/// compliant, with zero counters; the external store rejects a second
/// record for the same authority before this runs.
pub fn onboard_industry(
    kyc_authority_role: &UserRole,
    authority: AccountId,
    industry_authority: AccountId,
    company_name: String,
    registration_number: String,
    bond_amount: u64,
    now: i64,
) -> (result: Result<(Industry, IndustryOnboarded), ErrorCode>)
    ensures
        match result {
            Ok(r) => {
                &&& kyc_authority_role.spec_has_role(authority, "KYC_AUTHORITY"@)
                &&& r.0 == (Industry {
                    authority: industry_authority,
                    company_name,
                    registration_number,
                    bond_amount,
                    is_kyc_verified: true,
                    is_active: true,
                    total_emissions: 0,
                    credits_burned: 0,
                    compliance_status: ComplianceStatus::Compliant,
                    onboarding_date: now,
                })
                &&& r.0.wf()
                &&& r.1 == (IndustryOnboarded {
                    industry: industry_authority,
                    company_name,
                    bond_amount,
                    timestamp: now,
                })
            },
            Err(e) => {
                &&& !kyc_authority_role.spec_has_role(authority, "KYC_AUTHORITY"@)
                &&& e == ErrorCode::InsufficientPermissions
            },
        },
{
    if !has_role(kyc_authority_role, authority, "KYC_AUTHORITY") {
        return Err(ErrorCode::InsufficientPermissions);
    }
    let event_name: String = company_name.clone();
    let industry = Industry {
        authority: industry_authority,
        company_name,
        registration_number,
        bond_amount,
        is_kyc_verified: true,
        is_active: true,
        total_emissions: 0,
        credits_burned: 0,
        compliance_status: ComplianceStatus::Compliant,
        onboarding_date: now,
    };
    let event = IndustryOnboarded {
        industry: industry_authority,
        company_name: event_name,
        bond_amount,
        timestamp: now,
    };
    Ok((industry, event))
}

/// Records a self-reported emission and settles it against the reporter's
/// current credit balance.
///
/// Only the record's own authority may report, and only while the record
/// is active. The emissions counter grows by the reported tonnage under
/// checked addition. Settlement burns the full tonnage when
/// `current_balance` (read from the external token ledger at call time)
/// covers it and the record stays compliant; otherwise it burns the entire
/// available balance and the record becomes non-compliant. The returned
/// event carries exactly the amount burned by this call, which the
/// substrate removes from the ledger atomically with this update.
pub fn report_emissions(
    industry: &mut Industry,
    industry_authority: AccountId,
    co2_tonnes: u64,
    reporting_period: String,
    current_balance: u64,
    now: i64,
) -> (result: Result<EmissionsReported, ErrorCode>)
    requires
        old(industry).wf(),
    ensures
        final(industry).wf(),
        final(industry).total_emissions >= old(industry).total_emissions,
        final(industry).credits_burned >= old(industry).credits_burned,
        match result {
            Ok(event) => {
                let burned = spec_burned_this_call(co2_tonnes, current_balance);
                let status = if current_balance >= co2_tonnes {
                    ComplianceStatus::Compliant
                } else {
                    ComplianceStatus::NonCompliant
                };
                &&& industry_authority == old(industry).authority
                &&& old(industry).is_active
                &&& old(industry).total_emissions + co2_tonnes <= u64::MAX
                &&& *final(industry) == (Industry {
                    total_emissions: (old(industry).total_emissions + co2_tonnes) as u64,
                    credits_burned: (old(industry).credits_burned + burned) as u64,
                    compliance_status: status,
                    ..*old(industry)
                })
                &&& burned <= current_balance
                &&& event == (EmissionsReported {
                    industry: old(industry).authority,
                    co2_tonnes,
                    credits_burned: burned,
                    reporting_period,
                    compliance_status: status,
                    timestamp: now,
                })
            },
            Err(e) => {
                &&& *final(industry) == *old(industry)
                &&& {
                    ||| {
                        &&& industry_authority != old(industry).authority
                        &&& e == ErrorCode::Unauthorized
                    }
                    ||| {
                        &&& industry_authority == old(industry).authority
                        &&& !old(industry).is_active
                        &&& e == ErrorCode::IndustryNotActive
                    }
                    ||| {
                        &&& industry_authority == old(industry).authority
                        &&& old(industry).is_active
                        &&& old(industry).total_emissions + co2_tonnes > u64::MAX
                        &&& e == ErrorCode::ArithmeticOverflow
                    }
                }
            },
        },
{
    if industry.authority != industry_authority {
        return Err(ErrorCode::Unauthorized);
    }
    if !industry.is_active {
        return Err(ErrorCode::IndustryNotActive);
    }
    let new_emissions = match industry.total_emissions.checked_add(co2_tonnes) {
        Some(total) => total,
        None => {
            return Err(ErrorCode::ArithmeticOverflow);
        },
    };
    let burned: u64 = if current_balance >= co2_tonnes {
        co2_tonnes
    } else {
        current_balance
    };
    let status = if current_balance >= co2_tonnes {
        ComplianceStatus::Compliant
    } else {
        ComplianceStatus::NonCompliant
    };
    // burned <= co2_tonnes and credits_burned <= total_emissions, so the
    // burn counter stays below the new emissions total and cannot overflow.
    assert(industry.credits_burned + burned <= new_emissions);
    industry.total_emissions = new_emissions;
    industry.credits_burned = industry.credits_burned + burned;
    industry.compliance_status = status;
    Ok(
        EmissionsReported {
            industry: industry_authority,
            co2_tonnes,
            credits_burned: burned,
            reporting_period,
            compliance_status: status,
            timestamp: now,
        },
    )
}

} // verus!
