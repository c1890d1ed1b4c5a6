use vstd::prelude::*;

use vstd::arithmetic::div_mod::lemma_div_is_ordered;
use vstd::arithmetic::div_mod::lemma_div_of0;
use vstd::arithmetic::div_mod::lemma_div_pos_is_pos;
use vstd::arithmetic::div_mod::lemma_multiply_divide_le;
use vstd::arithmetic::mul::lemma_mul_inequality;
use vstd::arithmetic::mul::lemma_mul_is_commutative;
use vstd::arithmetic::mul::lemma_mul_nonnegative;
use vstd::arithmetic::mul::lemma_mul_upper_bound;

use crate::access_control::has_role;
use crate::errors::ErrorCode;
use crate::events::BidPlaced;
use crate::events::DutchAuctionCreated;
use crate::state::AccountId;
use crate::state::DutchAuction;
use crate::state::UserRole;

verus! {

/// The offered price at time `t` on a linearly decaying curve: the start
/// price at `start_time`, falling by truncating interpolation to the end
/// price at `end_time`, and the end price from then on.
pub open spec fn spec_price_at(
    start_price: u64,
    end_price: u64,
    start_time: i64,
    end_time: i64,
    t: i64,
) -> int {
    if t >= end_time {
        end_price as int
    } else {
        start_price - (start_price - end_price) * (t - start_time) / (end_time - start_time)
    }
}

/// Computes the offered price at `current_time`.
///
/// Pure. The interpolation is carried out in wide integers, so no input
/// allowed by the preconditions can overflow or divide by zero.
pub fn calculate_dutch_auction_price(
    start_price: u64,
    end_price: u64,
    start_time: i64,
    end_time: i64,
    current_time: i64,
) -> (price: u64)
    requires
        end_price <= start_price,
        start_time < end_time,
        start_time <= current_time,
    ensures
        price == spec_price_at(start_price, end_price, start_time, end_time, current_time),
        end_price <= price <= start_price,
{
    if current_time >= end_time {
        return end_price;
    }
    let total_duration: i128 = end_time as i128 - start_time as i128;
    let elapsed_time: i128 = current_time as i128 - start_time as i128;
    let diff: u64 = start_price - end_price;
    proof {
        lemma_mul_upper_bound(diff as int, u64::MAX as int, elapsed_time as int, u64::MAX as int);
        lemma_mul_nonnegative(diff as int, elapsed_time as int);
        lemma_mul_inequality(elapsed_time as int, total_duration as int, diff as int);
        lemma_mul_is_commutative(diff as int, elapsed_time as int);
        lemma_mul_is_commutative(total_duration as int, diff as int);
        lemma_multiply_divide_le(
            diff as int * elapsed_time as int,
            total_duration as int,
            diff as int,
        );
        lemma_div_pos_is_pos(diff as int * elapsed_time as int, total_duration as int);
    }
    let price_decay_wide: u128 = (diff as u128) * (elapsed_time as u128) / (total_duration as u128);
    let price_decay: u64 = price_decay_wide as u64;
    start_price - price_decay
}

/// Law: on a positive-duration, non-increasing curve, the offered price
/// stays within `[end_price, start_price]` from `start_time` on.
pub proof fn lemma_price_at_bounds(
    start_price: u64,
    end_price: u64,
    start_time: i64,
    end_time: i64,
    t: i64,
)
    requires
        end_price <= start_price,
        start_time < end_time,
        start_time <= t,
    ensures
        end_price <= spec_price_at(start_price, end_price, start_time, end_time, t) <= start_price,
{
    if t < end_time {
        let diff = start_price - end_price;
        let total = end_time - start_time;
        let elapsed = t - start_time;
        lemma_mul_nonnegative(diff, elapsed);
        lemma_div_pos_is_pos(diff * elapsed, total);
        lemma_mul_inequality(elapsed, total, diff);
        lemma_mul_is_commutative(diff, elapsed);
        lemma_mul_is_commutative(total, diff);
        lemma_multiply_divide_le(diff * elapsed, total, diff);
    }
}

/// Law: the curve starts at the start price and ends at the end price:
/// the offered price is `start_price` at `start_time` and `end_price` at
/// `end_time`.
pub proof fn lemma_price_at_endpoints(start_price: u64, end_price: u64, start_time: i64, end_time: i64)
    requires
        end_price <= start_price,
        start_time < end_time,
    ensures
        spec_price_at(start_price, end_price, start_time, end_time, start_time) == start_price,
        spec_price_at(start_price, end_price, start_time, end_time, end_time) == end_price,
{
    let diff = start_price - end_price;
    let total = end_time - start_time;
    assert(diff * 0 == 0) by (nonlinear_arith);
    lemma_div_of0(total);
}

/// Law: the offered price never rises as time advances.
pub proof fn lemma_price_at_non_increasing(
    start_price: u64,
    end_price: u64,
    start_time: i64,
    end_time: i64,
    t1: i64,
    t2: i64,
)
    requires
        end_price <= start_price,
        start_time < end_time,
        start_time <= t1 <= t2,
    ensures
        spec_price_at(start_price, end_price, start_time, end_time, t2) <= spec_price_at(
            start_price,
            end_price,
            start_time,
            end_time,
            t1,
        ),
{
    if t2 >= end_time {
        lemma_price_at_bounds(start_price, end_price, start_time, end_time, t1);
    } else {
        let diff = start_price - end_price;
        let total = end_time - start_time;
        let e1 = t1 - start_time;
        let e2 = t2 - start_time;
        lemma_mul_inequality(e1, e2, diff);
        lemma_mul_is_commutative(diff, e1);
        lemma_mul_is_commutative(diff, e2);
        lemma_div_is_ordered(diff * e1, diff * e2, total);
    }
}

/// Creates a decaying-price auction over `tokens_for_sale` credits.
///
/// The caller must hold the auction authority. A zero or negative
/// duration, a start price below the end price, or an empty inventory is
/// rejected before any state exists; the end time comes from checked
/// addition on the supplied current time.
pub fn create_dutch_auction(
    auction_authority_role: &UserRole,
    authority: AccountId,
    auction: AccountId,
    seller: AccountId,
    token_mint: AccountId,
    start_price: u64,
    end_price: u64,
    duration_seconds: i64,
    tokens_for_sale: u64,
    now: i64,
) -> (result: Result<(DutchAuction, DutchAuctionCreated), ErrorCode>)
    ensures
        match result {
            Ok(r) => {
                &&& auction_authority_role.spec_has_role(authority, "AUCTION_AUTHORITY"@)
                &&& duration_seconds > 0
                &&& end_price <= start_price
                &&& tokens_for_sale > 0
                &&& now + duration_seconds <= i64::MAX
                &&& r.0 == (DutchAuction {
                    seller,
                    token_mint,
                    start_price,
                    end_price,
                    start_time: now,
                    end_time: (now + duration_seconds) as i64,
                    tokens_for_sale,
                    tokens_sold: 0,
                    is_active: true,
                })
                &&& r.0.wf()
                &&& r.1 == (DutchAuctionCreated {
                    auction,
                    seller,
                    start_price,
                    end_price,
                    duration_seconds,
                    tokens_for_sale,
                    timestamp: now,
                })
            },
            Err(e) => {
                ||| {
                    &&& !auction_authority_role.spec_has_role(authority, "AUCTION_AUTHORITY"@)
                    &&& e == ErrorCode::InsufficientPermissions
                }
                ||| {
                    &&& auction_authority_role.spec_has_role(authority, "AUCTION_AUTHORITY"@)
                    &&& !(duration_seconds > 0 && end_price <= start_price && tokens_for_sale > 0)
                    &&& e == ErrorCode::InvalidAuctionParameters
                }
                ||| {
                    &&& auction_authority_role.spec_has_role(authority, "AUCTION_AUTHORITY"@)
                    &&& duration_seconds > 0
                    &&& end_price <= start_price
                    &&& tokens_for_sale > 0
                    &&& now + duration_seconds > i64::MAX
                    &&& e == ErrorCode::ArithmeticOverflow
                }
            },
        },
{
    if !has_role(auction_authority_role, authority, "AUCTION_AUTHORITY") {
        return Err(ErrorCode::InsufficientPermissions);
    }
    if !(duration_seconds > 0 && end_price <= start_price && tokens_for_sale > 0) {
        return Err(ErrorCode::InvalidAuctionParameters);
    }
    let end_time = match now.checked_add(duration_seconds) {
        Some(t) => t,
        None => {
            return Err(ErrorCode::ArithmeticOverflow);
        },
    };
    let record = DutchAuction {
        seller,
        token_mint,
        start_price,
        end_price,
        start_time: now,
        end_time,
        tokens_for_sale,
        tokens_sold: 0,
        is_active: true,
    };
    let event = DutchAuctionCreated {
        auction,
        seller,
        start_price,
        end_price,
        duration_seconds,
        tokens_for_sale,
        timestamp: now,
    };
    Ok((record, event))
}

/// A bid for `token_amount` at time `t` is accepted: the auction is
/// active, the bid is in time, the amount fits the remaining inventory,
/// and the total cost fits a 64-bit word.
pub open spec fn spec_bid_accepted(a: DutchAuction, token_amount: u64, t: i64) -> bool {
    &&& a.is_active
    &&& t <= a.end_time
    &&& token_amount <= a.tokens_for_sale - a.tokens_sold
    &&& spec_price_at(a.start_price, a.end_price, a.start_time, a.end_time, t) * token_amount
        <= u64::MAX
}

/// The auction after one bid: inventory grows by the amount sold and the
/// auction deactivates once sold out; a rejected bid changes nothing.
pub open spec fn spec_bid_step(a: DutchAuction, token_amount: u64, t: i64) -> DutchAuction {
    if spec_bid_accepted(a, token_amount, t) {
        DutchAuction {
            tokens_sold: (a.tokens_sold + token_amount) as u64,
            is_active: a.tokens_sold + token_amount < a.tokens_for_sale,
            ..a
        }
    } else {
        a
    }
}

/// Settles one bid atomically: availability check, price computation and
/// inventory update are one unit, and a failed check leaves the record
/// untouched.
///
/// The supplied `current_time` comes from the substrate's monotonic
/// clock, so it is never before the auction's creation time.
pub fn place_bid(
    auction: &mut DutchAuction,
    auction_key: AccountId,
    bidder: AccountId,
    token_amount: u64,
    current_time: i64,
) -> (result: Result<BidPlaced, ErrorCode>)
    requires
        old(auction).wf(),
        old(auction).start_time <= current_time,
    ensures
        final(auction).wf(),
        *final(auction) == spec_bid_step(*old(auction), token_amount, current_time),
        final(auction).tokens_sold >= old(auction).tokens_sold,
        final(auction).is_active ==> old(auction).is_active,
        match result {
            Ok(event) => {
                let price = spec_price_at(
                    old(auction).start_price,
                    old(auction).end_price,
                    old(auction).start_time,
                    old(auction).end_time,
                    current_time,
                );
                &&& spec_bid_accepted(*old(auction), token_amount, current_time)
                &&& event == (BidPlaced {
                    auction: auction_key,
                    bidder,
                    token_amount,
                    price_per_token: price as u64,
                    total_cost: (price * token_amount) as u64,
                    timestamp: current_time,
                })
            },
            Err(e) => {
                let price = spec_price_at(
                    old(auction).start_price,
                    old(auction).end_price,
                    old(auction).start_time,
                    old(auction).end_time,
                    current_time,
                );
                &&& !spec_bid_accepted(*old(auction), token_amount, current_time)
                &&& {
                    ||| {
                        &&& !old(auction).is_active
                        &&& e == ErrorCode::AuctionNotActive
                    }
                    ||| {
                        &&& old(auction).is_active
                        &&& current_time > old(auction).end_time
                        &&& e == ErrorCode::AuctionExpired
                    }
                    ||| {
                        &&& old(auction).is_active
                        &&& current_time <= old(auction).end_time
                        &&& token_amount > old(auction).tokens_for_sale - old(auction).tokens_sold
                        &&& e == ErrorCode::InsufficientTokensAvailable
                    }
                    ||| {
                        &&& old(auction).is_active
                        &&& current_time <= old(auction).end_time
                        &&& token_amount <= old(auction).tokens_for_sale - old(auction).tokens_sold
                        &&& price * token_amount > u64::MAX
                        &&& e == ErrorCode::ArithmeticOverflow
                    }
                }
            },
        },
{
    if !auction.is_active {
        return Err(ErrorCode::AuctionNotActive);
    }
    if current_time > auction.end_time {
        return Err(ErrorCode::AuctionExpired);
    }
    if token_amount > auction.tokens_for_sale - auction.tokens_sold {
        return Err(ErrorCode::InsufficientTokensAvailable);
    }
    let current_price = calculate_dutch_auction_price(
        auction.start_price,
        auction.end_price,
        auction.start_time,
        auction.end_time,
        current_time,
    );
    let total_cost = match current_price.checked_mul(token_amount) {
        Some(cost) => cost,
        None => {
            return Err(ErrorCode::ArithmeticOverflow);
        },
    };
    auction.tokens_sold = auction.tokens_sold + token_amount;
    if auction.tokens_sold >= auction.tokens_for_sale {
        auction.is_active = false;
    }
    Ok(
        BidPlaced {
            auction: auction_key,
            bidder,
            token_amount,
            price_per_token: current_price,
            total_cost,
            timestamp: current_time,
        },
    )
}

/// One bid never breaks well-formedness, shrinks the inventory already
/// sold, or touches the inventory on offer.
pub proof fn lemma_bid_step_preserves_wf(a: DutchAuction, token_amount: u64, t: i64)
    requires
        a.wf(),
    ensures
        spec_bid_step(a, token_amount, t).wf(),
        spec_bid_step(a, token_amount, t).tokens_for_sale == a.tokens_for_sale,
        spec_bid_step(a, token_amount, t).tokens_sold >= a.tokens_sold,
{
}

/// Law: two bids accepted in sequence never together exceed the inventory
/// that remained when the first was accepted. With bids on one auction
/// serialized by the substrate, this is how concurrent bidders cannot
/// jointly oversell.
pub proof fn lemma_consecutive_bids_fit_remaining(
    a: DutchAuction,
    first_amount: u64,
    t1: i64,
    second_amount: u64,
    t2: i64,
)
    requires
        a.wf(),
        spec_bid_accepted(a, first_amount, t1),
        spec_bid_accepted(spec_bid_step(a, first_amount, t1), second_amount, t2),
    ensures
        first_amount + second_amount <= a.tokens_for_sale - a.tokens_sold,
{
}

/// The auction after a sequence of bids, each applied in order at its own
/// time.
pub open spec fn auction_after_bids(a: DutchAuction, bids: Seq<(u64, i64)>) -> DutchAuction
    decreases bids.len(),
{
    if bids.len() == 0 {
        a
    } else {
        spec_bid_step(auction_after_bids(a, bids.drop_last()), bids.last().0, bids.last().1)
    }
}

/// Law: no sequence of bids ever oversells a well-formed auction; the
/// tokens sold never exceed the tokens for sale, however many bids are
/// placed and whenever they arrive.
pub proof fn lemma_bids_never_oversell(a: DutchAuction, bids: Seq<(u64, i64)>)
    requires
        a.wf(),
    ensures
        auction_after_bids(a, bids).wf(),
        auction_after_bids(a, bids).tokens_for_sale == a.tokens_for_sale,
        auction_after_bids(a, bids).tokens_sold <= a.tokens_for_sale,
    decreases bids.len(),
{
    if bids.len() > 0 {
        lemma_bids_never_oversell(a, bids.drop_last());
        lemma_bid_step_preserves_wf(
            auction_after_bids(a, bids.drop_last()),
            bids.last().0,
            bids.last().1,
        );
    }
}

} // verus!
