use carbon_rwa::access_control::assign_user_to_role;
use carbon_rwa::access_control::create_role;
use carbon_rwa::access_control::initialize_access_control;
use carbon_rwa::auction::calculate_dutch_auction_price;
use carbon_rwa::auction::create_dutch_auction;
use carbon_rwa::auction::place_bid;
use carbon_rwa::errors::ErrorCode;
use carbon_rwa::state::DutchAuction;
use carbon_rwa::state::UserRole;

const ADMIN: u64 = 1;
const CONTROLLER_KEY: u64 = 100;
const AUCTIONEER: u64 = 30;
const SELLER: u64 = 31;
const BIDDER: u64 = 32;
const OUTSIDER: u64 = 33;
const MINT: u64 = 200;
const AUCTION_KEY: u64 = 300;

fn auction_role() -> UserRole {
    let controller = initialize_access_control(ADMIN);
    let mut role = create_role(
        &controller,
        CONTROLLER_KEY,
        ADMIN,
        String::from("AUCTION_AUTHORITY"),
        vec![String::from("AUCTION_AUTHORITY")],
    )
    .unwrap();
    assign_user_to_role(&controller, ADMIN, &mut role, AUCTIONEER).unwrap();
    role
}

fn standard_auction() -> DutchAuction {
    // start_price 100, end_price 10, duration 1000 s, 500 tokens for sale,
    // created at time 0.
    let role = auction_role();
    let (auction, _) =
        create_dutch_auction(&role, AUCTIONEER, AUCTION_KEY, SELLER, MINT, 100, 10, 1000, 500, 0)
            .unwrap();
    auction
}

#[test]
fn create_auction_sets_curve_and_inventory() {
    let role = auction_role();
    let (auction, event) =
        create_dutch_auction(&role, AUCTIONEER, AUCTION_KEY, SELLER, MINT, 100, 10, 1000, 500, 7)
            .unwrap();
    assert_eq!(auction.seller, SELLER);
    assert_eq!(auction.token_mint, MINT);
    assert_eq!(auction.start_price, 100);
    assert_eq!(auction.end_price, 10);
    assert_eq!(auction.start_time, 7);
    assert_eq!(auction.end_time, 1007);
    assert_eq!(auction.tokens_for_sale, 500);
    assert_eq!(auction.tokens_sold, 0);
    assert!(auction.is_active);
    assert_eq!(event.auction, AUCTION_KEY);
    assert_eq!(event.seller, SELLER);
    assert_eq!(event.duration_seconds, 1000);
    assert_eq!(event.timestamp, 7);
}

#[test]
fn create_auction_without_role_fails() {
    let role = auction_role();
    let r = create_dutch_auction(&role, OUTSIDER, AUCTION_KEY, SELLER, MINT, 100, 10, 1000, 500, 0);
    assert_eq!(r.unwrap_err(), ErrorCode::InsufficientPermissions);
}

#[test]
fn create_auction_rejects_bad_parameters() {
    let role = auction_role();
    // Zero duration would make the price curve divide by zero.
    let r = create_dutch_auction(&role, AUCTIONEER, AUCTION_KEY, SELLER, MINT, 100, 10, 0, 500, 0);
    assert_eq!(r.unwrap_err(), ErrorCode::InvalidAuctionParameters);
    // Start price below end price would make the decay underflow.
    let r = create_dutch_auction(&role, AUCTIONEER, AUCTION_KEY, SELLER, MINT, 10, 100, 1000, 500, 0);
    assert_eq!(r.unwrap_err(), ErrorCode::InvalidAuctionParameters);
    // Nothing for sale.
    let r = create_dutch_auction(&role, AUCTIONEER, AUCTION_KEY, SELLER, MINT, 100, 10, 1000, 0, 0);
    assert_eq!(r.unwrap_err(), ErrorCode::InvalidAuctionParameters);
}

#[test]
fn create_auction_end_time_overflow_fails() {
    let role = auction_role();
    let r = create_dutch_auction(
        &role,
        AUCTIONEER,
        AUCTION_KEY,
        SELLER,
        MINT,
        100,
        10,
        i64::MAX,
        500,
        1,
    );
    assert_eq!(r.unwrap_err(), ErrorCode::ArithmeticOverflow);
}

#[test]
fn price_interpolates_and_clamps() {
    assert_eq!(calculate_dutch_auction_price(100, 10, 0, 1000, 0), 100);
    // Half the duration: 100 - 90 * 500 / 1000 = 55.
    assert_eq!(calculate_dutch_auction_price(100, 10, 0, 1000, 500), 55);
    assert_eq!(calculate_dutch_auction_price(100, 10, 0, 1000, 1000), 10);
    assert_eq!(calculate_dutch_auction_price(100, 10, 0, 1000, 5000), 10);
    // Truncating division: 100 - 90 * 1 / 7 = 100 - 12 = 88.
    assert_eq!(calculate_dutch_auction_price(100, 10, 0, 7, 1), 88);
    // Flat curve.
    assert_eq!(calculate_dutch_auction_price(10, 10, 0, 1000, 500), 10);
}

#[test]
fn price_is_non_increasing_over_the_window() {
    let mut last: u64 = u64::MAX;
    for t in 0..=1000i64 {
        let p = calculate_dutch_auction_price(100, 10, 0, 1000, t);
        assert!(p <= last);
        assert!((10..=100).contains(&p));
        last = p;
    }
}

#[test]
fn bid_at_half_duration_settles_at_interpolated_price() {
    let mut auction = standard_auction();
    let event = place_bid(&mut auction, AUCTION_KEY, BIDDER, 200, 500).unwrap();
    assert_eq!(event.price_per_token, 55);
    assert_eq!(event.total_cost, 11000);
    assert_eq!(event.token_amount, 200);
    assert_eq!(event.auction, AUCTION_KEY);
    assert_eq!(event.bidder, BIDDER);
    assert_eq!(event.timestamp, 500);
    assert_eq!(auction.tokens_sold, 200);
    assert!(auction.is_active);
    // A follow-up bid for more than the 300 remaining tokens fails.
    let r = place_bid(&mut auction, AUCTION_KEY, BIDDER, 301, 600);
    assert_eq!(r.unwrap_err(), ErrorCode::InsufficientTokensAvailable);
    assert_eq!(auction.tokens_sold, 200);
}

#[test]
fn selling_out_deactivates_the_auction() {
    let mut auction = standard_auction();
    place_bid(&mut auction, AUCTION_KEY, BIDDER, 499, 100).unwrap();
    assert!(auction.is_active);
    let event = place_bid(&mut auction, AUCTION_KEY, BIDDER, 1, 200).unwrap();
    assert_eq!(event.token_amount, 1);
    assert_eq!(auction.tokens_sold, 500);
    assert!(!auction.is_active);
    let r = place_bid(&mut auction, AUCTION_KEY, BIDDER, 1, 300);
    assert_eq!(r.unwrap_err(), ErrorCode::AuctionNotActive);
}

#[test]
fn bid_at_the_deadline_settles_at_end_price() {
    let mut auction = standard_auction();
    let event = place_bid(&mut auction, AUCTION_KEY, BIDDER, 10, 1000).unwrap();
    assert_eq!(event.price_per_token, 10);
    assert_eq!(event.total_cost, 100);
}

#[test]
fn late_bid_is_expired() {
    let mut auction = standard_auction();
    let r = place_bid(&mut auction, AUCTION_KEY, BIDDER, 10, 1001);
    assert_eq!(r.unwrap_err(), ErrorCode::AuctionExpired);
    assert_eq!(auction.tokens_sold, 0);
    assert!(auction.is_active);
}

#[test]
fn bid_cost_overflow_fails_without_mutation() {
    let role = auction_role();
    let (mut auction, _) = create_dutch_auction(
        &role,
        AUCTIONEER,
        AUCTION_KEY,
        SELLER,
        MINT,
        u64::MAX,
        u64::MAX,
        1000,
        u64::MAX,
        0,
    )
    .unwrap();
    let r = place_bid(&mut auction, AUCTION_KEY, BIDDER, 2, 0);
    assert_eq!(r.unwrap_err(), ErrorCode::ArithmeticOverflow);
    assert_eq!(auction.tokens_sold, 0);
    assert!(auction.is_active);
}

#[test]
fn many_bids_never_oversell() {
    let mut auction = standard_auction();
    let mut accepted: u64 = 0;
    for t in 0..1000 {
        match place_bid(&mut auction, AUCTION_KEY, BIDDER, 7, t) {
            Ok(event) => accepted += event.token_amount,
            Err(e) => assert_eq!(e, ErrorCode::InsufficientTokensAvailable),
        }
        assert!(auction.tokens_sold <= auction.tokens_for_sale);
    }
    assert_eq!(accepted, auction.tokens_sold);
    assert!(auction.tokens_sold <= 500);
}
