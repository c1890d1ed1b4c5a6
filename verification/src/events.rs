use vstd::prelude::*;

use crate::state::AccountId;
use crate::state::ComplianceStatus;

verus! {

/// Emitted after credits are issued to a recipient.
#[derive(Clone, Debug)]
pub struct CarbonCreditsMinted {
    pub mint: AccountId,
    pub recipient: AccountId,
    pub amount: u64,
    pub timestamp: i64,
}

/// Emitted after an industry participant is onboarded.
#[derive(Clone, Debug)]
pub struct IndustryOnboarded {
    pub industry: AccountId,
    pub company_name: String,
    pub bond_amount: u64,
    pub timestamp: i64,
}

/// Emitted after an emissions report settles.
///
/// `credits_burned` is the amount burned by this call alone, and always
/// equals what was actually removed from the external ledger.
#[derive(Clone, Debug)]
pub struct EmissionsReported {
    pub industry: AccountId,
    pub co2_tonnes: u64,
    pub credits_burned: u64,
    pub reporting_period: String,
    pub compliance_status: ComplianceStatus,
    pub timestamp: i64,
}

/// Emitted after a decaying-price auction is created.
#[derive(Clone, Debug)]
pub struct DutchAuctionCreated {
    pub auction: AccountId,
    pub seller: AccountId,
    pub start_price: u64,
    pub end_price: u64,
    pub duration_seconds: i64,
    pub tokens_for_sale: u64,
    pub timestamp: i64,
}

/// Emitted after a bid is accepted and settled.
#[derive(Clone, Debug)]
pub struct BidPlaced {
    pub auction: AccountId,
    pub bidder: AccountId,
    pub token_amount: u64,
    pub price_per_token: u64,
    pub total_cost: u64,
    pub timestamp: i64,
}

} // verus!
