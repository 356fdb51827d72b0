use darkbet::lifecycle::{
    initialize_market, lock_market, lock_time_reached, reveal_window_open, LOCK_WINDOW,
};
use darkbet::{AssetType, ErrorCode, Market, MarketCreated, MarketLocked, MarketStatus};

const AUTHORITY: [u8; 32] = [7u8; 32];
const FEED: [u8; 32] = [9u8; 32];

fn market_resolving_at(resolution_time: i64) -> Market {
    Market {
        authority: AUTHORITY,
        market_id: 5,
        asset_type: AssetType::ETH,
        resolution_time,
        pyth_feed_account: FEED,
        threshold_price: 3_000,
        total_long_stake: 0,
        total_short_stake: 0,
        status: MarketStatus::Open,
        settlement_price: None,
        created_at: 0,
    }
}

#[test]
fn lock_window_is_three_hundred_seconds() {
    assert_eq!(LOCK_WINDOW, 300);
}

#[test]
fn initialize_market_creates_an_open_market() {
    let (market, event) =
        initialize_market(AUTHORITY, 5, AssetType::BTC, 10_000, FEED, 65_000, 1_000).unwrap();
    assert_eq!(
        market,
        Market {
            authority: AUTHORITY,
            market_id: 5,
            asset_type: AssetType::BTC,
            resolution_time: 10_000,
            pyth_feed_account: FEED,
            threshold_price: 65_000,
            total_long_stake: 0,
            total_short_stake: 0,
            status: MarketStatus::Open,
            settlement_price: None,
            created_at: 1_000,
        }
    );
    assert_eq!(
        event,
        MarketCreated {
            market_id: 5,
            authority: AUTHORITY,
            asset_type: AssetType::BTC,
            resolution_time: 10_000,
            threshold_price: 65_000,
        }
    );
}

#[test]
fn initialize_market_needs_a_future_resolution_time() {
    let at_now = initialize_market(AUTHORITY, 1, AssetType::SOL, 1_000, FEED, 1, 1_000);
    assert_eq!(at_now, Err(ErrorCode::InvalidResolutionTime));
    let past = initialize_market(AUTHORITY, 1, AssetType::SOL, 999, FEED, 1, 1_000);
    assert_eq!(past, Err(ErrorCode::InvalidResolutionTime));
    let next_second = initialize_market(AUTHORITY, 1, AssetType::SOL, 1_001, FEED, 1, 1_000);
    assert!(next_second.is_ok());
}

#[test]
fn lock_market_waits_for_the_lock_time() {
    let mut market = market_resolving_at(10_000);
    assert_eq!(lock_market(&mut market, 9_699), Err(ErrorCode::LockTimeNotReached));
    assert_eq!(market, market_resolving_at(10_000));
    assert_eq!(
        lock_market(&mut market, 9_700),
        Ok(MarketLocked { market_id: 5, lock_time: 9_700 })
    );
    assert_eq!(market.status, MarketStatus::Locked);
    assert_eq!(market.resolution_time, 10_000);
}

#[test]
fn lock_market_works_after_the_resolution_time_too() {
    let mut market = market_resolving_at(10_000);
    assert_eq!(
        lock_market(&mut market, 20_000),
        Ok(MarketLocked { market_id: 5, lock_time: 20_000 })
    );
    assert_eq!(market.status, MarketStatus::Locked);
}

#[test]
fn lock_market_needs_an_open_market() {
    for status in [MarketStatus::Locked, MarketStatus::Resolved, MarketStatus::Cancelled] {
        let mut market = market_resolving_at(10_000);
        market.status = status;
        let before = market;
        assert_eq!(lock_market(&mut market, 9_999), Err(ErrorCode::MarketNotOpen));
        assert_eq!(market, before);
    }
}

#[test]
fn lock_market_looks_at_the_status_before_the_time() {
    let mut market = market_resolving_at(10_000);
    market.status = MarketStatus::Locked;
    assert_eq!(lock_market(&mut market, 0), Err(ErrorCode::MarketNotOpen));
}

#[test]
fn lock_time_is_counted_without_wrapping() {
    assert!(lock_time_reached(i64::MIN, i64::MIN));
    assert!(lock_time_reached(i64::MIN + 299, i64::MIN));
    assert!(lock_time_reached(i64::MIN + 300, i64::MIN));
    assert!(!lock_time_reached(i64::MIN + 301, i64::MIN));
    assert!(lock_time_reached(i64::MAX, i64::MAX - 300));
    assert!(!lock_time_reached(i64::MAX, i64::MAX - 301));
}

#[test]
fn reveal_window_is_half_open() {
    assert!(!reveal_window_open(10_000, 9_699));
    assert!(reveal_window_open(10_000, 9_700));
    assert!(reveal_window_open(10_000, 9_999));
    assert!(!reveal_window_open(10_000, 10_000));
    assert!(!reveal_window_open(10_000, 10_001));
    assert!(!reveal_window_open(i64::MIN, i64::MIN));
    assert!(reveal_window_open(i64::MIN + 1, i64::MIN));
}

#[test]
fn every_refusal_has_its_own_words() {
    let all = [
        (ErrorCode::InvalidResolutionTime, "Resolution time must be in the future"),
        (ErrorCode::MarketNotOpen, "Market is not open for betting"),
        (ErrorCode::MarketLocked, "Market is locked, no new bets allowed"),
        (ErrorCode::StakeTooLow, "Stake amount is too low (minimum 0.01 SOL)"),
        (ErrorCode::StakeTooHigh, "Stake amount is too high (maximum 100 SOL)"),
        (ErrorCode::MarketNotLocked, "Market is not locked yet"),
        (ErrorCode::RevealWindowClosed, "Reveal window is closed"),
        (ErrorCode::AlreadyRevealed, "Bet already revealed"),
        (ErrorCode::InvalidCommitment, "Invalid commitment hash"),
        (ErrorCode::LockTimeNotReached, "Lock time has not been reached"),
        (ErrorCode::MathOverflow, "Math overflow"),
        (ErrorCode::DuplicateCommitment, "A bet is already committed in this market"),
        (ErrorCode::PositionNotFound, "No bet is committed in this market"),
        (ErrorCode::MarketNotFound, "Market does not exist"),
        (ErrorCode::DuplicateMarket, "Market id is already in use"),
    ];
    for (i, (code, words)) in all.iter().enumerate() {
        assert_eq!(code.message(), *words);
        for (other, _) in all.iter().skip(i + 1) {
            assert_ne!(code, other);
            assert_ne!(code.message(), other.message());
        }
    }
}
