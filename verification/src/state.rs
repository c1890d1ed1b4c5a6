use vstd::prelude::*;

verus! {

/// Identity key of an account in the external addressing scheme.
///
/// The substrate addresses every record and participant by an opaque key;
/// the core only ever compares such keys for equality, so it carries them
/// as plain unsigned integers.
pub type AccountId = u64;

/// Singleton access-control root: records the administrator identity.
///
/// Created once at bootstrap and read-only thereafter; every admin-gated
/// operation compares the caller against `default_admin`.
#[derive(Clone, Debug)]
pub struct Controller {
    pub default_admin: AccountId,
}

/// A named role: a fixed list of permitted actions plus a member list.
///
/// The action list is fixed at creation; membership grows through
/// `assign_user_to_role` and never shrinks.
#[derive(Clone, Debug)]
pub struct UserRole {
    /// Key of the controller this role belongs to (non-owning reference).
    pub controller: AccountId,
    /// Unique name of the role.
    pub role_name: String,
    /// Action names this role permits; fixed at creation.
    pub actions: Vec<String>,
    /// Identities holding this role; no duplicates.
    pub users: Vec<AccountId>,
}

impl UserRole {
    /// Well-formedness: the member list holds no duplicates.
    pub open spec fn wf(self) -> bool {
        self.users@.no_duplicates()
    }

    /// The fixed action list contains `action`.
    pub open spec fn spec_has_action(self, action: Seq<char>) -> bool {
        exists|i: int| 0 <= i < self.actions@.len() && self.actions@[i]@ == action
    }

    /// `user` is a member of this role.
    pub open spec fn spec_is_member(self, user: AccountId) -> bool {
        self.users@.contains(user)
    }

    /// The sole authorization predicate of the system: `user` may perform
    /// `action` iff the action is permitted by this role and the user is a
    /// member.
    pub open spec fn spec_has_role(self, user: AccountId, action: Seq<char>) -> bool {
        self.spec_has_action(action) && self.spec_is_member(user)
    }
}

/// Carbon-credit token metadata and its tracked total supply.
#[derive(Clone, Debug)]
pub struct CarbonToken {
    /// Key of the underlying mint in the external token ledger.
    pub mint: AccountId,
    pub name: String,
    pub symbol: String,
    pub uri: String,
    /// CO2 tonnage rating of the credit.
    pub co2_tonnes: u64,
    pub project_id: String,
    pub expiry_date: i64,
    pub issuer_name: String,
    /// Units ever issued; only increases, by checked addition.
    pub total_supply: u64,
    /// Once false, no further mint is permitted.
    pub is_active: bool,
}

/// Compliance standing of an industry participant.
///
/// `Frozen` is reachable only through an administrative path outside this
/// core's operation surface; no operation here sets it.
#[derive(Clone, Copy, Debug, PartialEq, Eq, Structural)]
pub enum ComplianceStatus {
    Compliant,
    NonCompliant,
    Frozen,
}

/// Per-participant emissions and credit-burn ledger record.
#[derive(Clone, Debug)]
pub struct Industry {
    /// Identity of the participant; one record per authority, and only the
    /// authority itself may report emissions.
    pub authority: AccountId,
    pub company_name: String,
    pub registration_number: String,
    pub bond_amount: u64,
    pub is_kyc_verified: bool,
    pub is_active: bool,
    /// Tonnes ever reported; monotonic counter.
    pub total_emissions: u64,
    /// Credits ever burned against reports; monotonic counter.
    pub credits_burned: u64,
    pub compliance_status: ComplianceStatus,
    pub onboarding_date: i64,
}

impl Industry {
    /// Well-formedness: burned credits never exceed reported emissions.
    pub open spec fn wf(self) -> bool {
        self.credits_burned <= self.total_emissions
    }
}

/// A decaying-price auction over a fixed inventory of credits.
///
/// The offered price falls linearly from `start_price` at `start_time` to
/// `end_price` at `end_time`; the auction ends once sold out or expired.
#[derive(Clone, Debug)]
pub struct DutchAuction {
    pub seller: AccountId,
    pub token_mint: AccountId,
    pub start_price: u64,
    pub end_price: u64,
    pub start_time: i64,
    pub end_time: i64,
    pub tokens_for_sale: u64,
    /// Units settled so far; monotonic, never exceeds `tokens_for_sale`.
    pub tokens_sold: u64,
    pub is_active: bool,
}

impl DutchAuction {
    /// Well-formedness: the price curve is non-increasing and has a
    /// positive duration, inventory is never oversold, and an active
    /// auction still has inventory left.
    pub open spec fn wf(self) -> bool {
        &&& self.end_price <= self.start_price
        &&& self.start_time < self.end_time
        &&& self.tokens_sold <= self.tokens_for_sale
        &&& self.is_active ==> self.tokens_sold < self.tokens_for_sale
    }
}

} // verus!
