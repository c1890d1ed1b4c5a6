use vstd::prelude::*;

verus! {

/// Failure kinds surfaced by the registry's operations.
///
/// Every operation aborts on the first violated precondition and leaves all
/// touched records unchanged; the failure kind is returned verbatim to the
/// caller.
#[derive(Clone, Copy, Debug, PartialEq, Eq, Structural)]
pub enum ErrorCode {
    /// The caller does not match the required identity.
    Unauthorized,
    /// The caller lacks the required role membership or action.
    InsufficientPermissions,
    /// The carbon token is not active.
    TokenNotActive,
    /// The industry record is not active.
    IndustryNotActive,
    /// The auction is not active.
    AuctionNotActive,
    /// The bid arrived after the auction's end time.
    AuctionExpired,
    /// The bid asks for more tokens than remain in the auction.
    InsufficientTokensAvailable,
    /// An auction was requested with a zero duration, a start price below
    /// the end price, or nothing for sale.
    InvalidAuctionParameters,
    /// A checked arithmetic operation would have overflowed.
    ArithmeticOverflow,
}

} // verus!
