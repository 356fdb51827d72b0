use darkbet::ledger::{credit_stake, payout, settlement_amount, stake_totals, winner};
use darkbet::{AssetType, Direction, ErrorCode, Market, MarketStatus, UserPosition};

fn resolved(long: u64, short: u64, price: i64) -> Market {
    Market {
        authority: [7u8; 32],
        market_id: 3,
        asset_type: AssetType::BNB,
        resolution_time: 1_000,
        pyth_feed_account: [9u8; 32],
        threshold_price: 100,
        total_long_stake: long,
        total_short_stake: short,
        status: MarketStatus::Resolved,
        settlement_price: Some(price),
        created_at: 0,
    }
}

fn revealed(direction: Direction, stake_amount: u64) -> UserPosition {
    UserPosition {
        user: [1u8; 32],
        market: 3,
        stake_amount,
        commitment_hash: [0u8; 32],
        direction: Some(direction),
        revealed: true,
        claimed: false,
        committed_at: 10,
    }
}

#[test]
fn stake_totals_reads_long_then_short() {
    assert_eq!(stake_totals(&resolved(7, 9, 101)), (7, 9));
}

#[test]
fn credit_stake_adds_to_one_side() {
    let mut m = resolved(7, 9, 101);
    assert_eq!(credit_stake(&mut m, Direction::Long, 5), Ok(()));
    assert_eq!(stake_totals(&m), (12, 9));
    assert_eq!(credit_stake(&mut m, Direction::Short, 1), Ok(()));
    assert_eq!(stake_totals(&m), (12, 10));
}

#[test]
fn credit_stake_refuses_overflow() {
    let mut m = resolved(u64::MAX - 4, 9, 101);
    let before = m;
    assert_eq!(credit_stake(&mut m, Direction::Long, 5), Err(ErrorCode::MathOverflow));
    assert_eq!(m, before);
    assert_eq!(credit_stake(&mut m, Direction::Long, 4), Ok(()));
    assert_eq!(m.total_long_stake, u64::MAX);
    assert_eq!(credit_stake(&mut m, Direction::Short, u64::MAX), Err(ErrorCode::MathOverflow));
    assert_eq!(m.total_short_stake, 9);
}

#[test]
fn winner_is_decided_by_price_against_threshold() {
    assert_eq!(winner(&resolved(1, 1, 101)), Some(Direction::Long));
    assert_eq!(winner(&resolved(1, 1, 99)), Some(Direction::Short));
    assert_eq!(winner(&resolved(1, 1, 100)), None);
}

#[test]
fn winner_needs_a_resolved_market_with_a_price() {
    for status in [MarketStatus::Open, MarketStatus::Locked, MarketStatus::Cancelled] {
        let mut m = resolved(1, 1, 101);
        m.status = status;
        assert_eq!(winner(&m), None);
    }
    let mut m = resolved(1, 1, 101);
    m.settlement_price = None;
    assert_eq!(winner(&m), None);
}

#[test]
fn payout_is_the_share_of_the_pool_rounded_down() {
    assert_eq!(payout(10, 30, 60), Some(30));
    assert_eq!(payout(10, 30, 0), Some(10));
    assert_eq!(payout(1, 3, 1), Some(1));
    assert_eq!(payout(2, 3, 1), Some(2));
    assert_eq!(payout(3, 3, 1), Some(4));
    assert_eq!(payout(7, 10, 5), Some(10));
    assert_eq!(payout(0, 10, 5), Some(0));
}

#[test]
fn payout_without_winning_stake_is_undefined() {
    assert_eq!(payout(10, 0, 60), None);
    assert_eq!(payout(0, 0, 0), None);
}

#[test]
fn payout_is_exact_for_the_largest_values() {
    let max = u64::MAX as u128;
    assert_eq!(payout(u64::MAX, u64::MAX, u64::MAX), Some(2 * max));
    assert_eq!(payout(u64::MAX, 1, u64::MAX), Some(max * (1 + max)));
    assert_eq!(payout(u64::MAX, 3, u64::MAX), Some(max + max * max / 3));
}

#[test]
fn settlement_pays_winners_their_share_and_losers_nothing() {
    let m = resolved(30, 60, 101);
    assert_eq!(settlement_amount(&m, &revealed(Direction::Long, 10)), Some(30));
    assert_eq!(settlement_amount(&m, &revealed(Direction::Short, 10)), Some(0));
    let m = resolved(30, 60, 99);
    assert_eq!(settlement_amount(&m, &revealed(Direction::Short, 20)), Some(30));
    assert_eq!(settlement_amount(&m, &revealed(Direction::Long, 30)), Some(0));
}

#[test]
fn settlement_is_undefined_without_a_winner() {
    let p = revealed(Direction::Long, 10);
    assert_eq!(settlement_amount(&resolved(30, 60, 100), &p), None);
    let mut locked = resolved(30, 60, 101);
    locked.status = MarketStatus::Locked;
    assert_eq!(settlement_amount(&locked, &p), None);
    let mut cancelled = resolved(30, 60, 101);
    cancelled.status = MarketStatus::Cancelled;
    assert_eq!(settlement_amount(&cancelled, &p), None);
}

#[test]
fn settlement_is_undefined_for_unrevealed_or_foreign_positions() {
    let m = resolved(30, 60, 101);
    let mut unrevealed = revealed(Direction::Long, 10);
    unrevealed.revealed = false;
    unrevealed.direction = None;
    assert_eq!(settlement_amount(&m, &unrevealed), None);
    let mut foreign = revealed(Direction::Long, 10);
    foreign.market = 4;
    assert_eq!(settlement_amount(&m, &foreign), None);
    let empty_side = resolved(0, 60, 101);
    assert_eq!(settlement_amount(&empty_side, &revealed(Direction::Long, 10)), None);
}

#[test]
fn payouts_never_exceed_the_pool() {
    let long_stakes = [1u64, 2, 3, 5, 7];
    let short_stakes = [4u64, 9];
    let long: u64 = long_stakes.iter().sum();
    let short: u64 = short_stakes.iter().sum();
    let m = resolved(long, short, 101);
    let mut paid: u128 = 0;
    for stake in long_stakes {
        paid += settlement_amount(&m, &revealed(Direction::Long, stake)).unwrap();
    }
    for stake in short_stakes {
        paid += settlement_amount(&m, &revealed(Direction::Short, stake)).unwrap();
    }
    assert_eq!(long + short, 31);
    assert_eq!(paid, 1 + 3 + 5 + 8 + 12);
    assert!(paid <= (long + short) as u128);
}
