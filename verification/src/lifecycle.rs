//! Market lifecycle: creation, the lock transition and the timing windows.
//!
//! A market is created `Open`. From `resolution_time - LOCK_WINDOW` on it
//! takes no new bets and anyone may lock it; a locked market takes reveals
//! until `resolution_time`. All comparisons are made on mathematical
//! integers, so a resolution time near the lower end of `i64` is handled
//! like any other.

use vstd::prelude::*;
use crate::error::ErrorCode;
use crate::records::{Address, AssetType, Market, MarketCreated, MarketLocked, MarketStatus};

verus! {

/// How long before its resolution a market stops taking new bets, in seconds.
pub const LOCK_WINDOW: i64 = 300;

/// The first moment at which a market with this resolution time takes no
/// new bets and can be locked.
pub open spec fn lock_time(resolution_time: i64) -> int {
    resolution_time - LOCK_WINDOW
}

/// Whether `now` lies in the reveal window, which starts at the lock time
/// and ends just before the resolution time.
pub open spec fn in_reveal_window(resolution_time: i64, now: i64) -> bool {
    lock_time(resolution_time) <= now < resolution_time
}

/// The market that a successful creation yields.
pub open spec fn new_market(
    authority: Address,
    market_id: u64,
    asset_type: AssetType,
    resolution_time: i64,
    pyth_feed_account: Address,
    threshold_price: i64,
    now: i64,
) -> Market {
    Market {
        authority,
        market_id,
        asset_type,
        resolution_time,
        pyth_feed_account,
        threshold_price,
        total_long_stake: 0,
        total_short_stake: 0,
        status: MarketStatus::Open,
        settlement_price: None,
        created_at: now,
    }
}

/// Why a market cannot be locked at `now`, if anything stands in the way.
pub open spec fn lock_rejection(market: Market, now: i64) -> Option<ErrorCode> {
    if market.status != MarketStatus::Open {
        Some(ErrorCode::MarketNotOpen)
    } else if now < lock_time(market.resolution_time) {
        Some(ErrorCode::LockTimeNotReached)
    } else {
        None
    }
}

/// The steps that a market's status may take: it stays, goes from open to
/// locked, from locked to resolved, or is cancelled while open or locked.
pub open spec fn status_step(before: MarketStatus, after: MarketStatus) -> bool {
    ||| after == before
    ||| before == MarketStatus::Open && after == MarketStatus::Locked
    ||| before == MarketStatus::Locked && after == MarketStatus::Resolved
    ||| before == MarketStatus::Open && after == MarketStatus::Cancelled
    ||| before == MarketStatus::Locked && after == MarketStatus::Cancelled
}

/// How a market record may differ from an earlier state of itself: its
/// terms are fixed, its status moves forward, and its stake totals never
/// shrink and grow only while it is locked.
pub open spec fn market_step(before: Market, after: Market) -> bool {
    &&& after.authority == before.authority
    &&& after.market_id == before.market_id
    &&& after.asset_type == before.asset_type
    &&& after.resolution_time == before.resolution_time
    &&& after.pyth_feed_account == before.pyth_feed_account
    &&& after.threshold_price == before.threshold_price
    &&& after.created_at == before.created_at
    &&& status_step(before.status, after.status)
    &&& after.total_long_stake >= before.total_long_stake
    &&& after.total_short_stake >= before.total_short_stake
    &&& (after.total_long_stake != before.total_long_stake || after.total_short_stake
        != before.total_short_stake) ==> before.status == MarketStatus::Locked
}

/// Tells whether the lock time of a market has come.
pub fn lock_time_reached(resolution_time: i64, now: i64) -> (reached: bool)
    ensures
        reached == (now >= lock_time(resolution_time)),
{
    if resolution_time < i64::MIN + LOCK_WINDOW {
        true
    } else {
        now >= resolution_time - LOCK_WINDOW
    }
}

/// Tells whether a reveal is in time at `now`.
pub fn reveal_window_open(resolution_time: i64, now: i64) -> (open: bool)
    ensures
        open == in_reveal_window(resolution_time, now),
{
    lock_time_reached(resolution_time, now) && now < resolution_time
}

/// Creates a market, open and without stakes, for `authority`.
///
/// The resolution time must lie in the future; otherwise
/// `InvalidResolutionTime` is returned.
pub fn initialize_market(
    authority: Address,
    market_id: u64,
    asset_type: AssetType,
    resolution_time: i64,
    pyth_feed_account: Address,
    threshold_price: i64,
    now: i64,
) -> (res: Result<(Market, MarketCreated), ErrorCode>)
    ensures
        resolution_time > now ==> res == Ok::<(Market, MarketCreated), ErrorCode>(
            (
                new_market(
                    authority,
                    market_id,
                    asset_type,
                    resolution_time,
                    pyth_feed_account,
                    threshold_price,
                    now,
                ),
                (MarketCreated {
                    market_id,
                    authority,
                    asset_type,
                    resolution_time,
                    threshold_price,
                }),
            ),
        ),
        resolution_time <= now ==> res == Err::<(Market, MarketCreated), ErrorCode>(
            ErrorCode::InvalidResolutionTime,
        ),
{
    if resolution_time <= now {
        return Err(ErrorCode::InvalidResolutionTime);
    }
    let market = Market {
        authority,
        market_id,
        asset_type,
        resolution_time,
        pyth_feed_account,
        threshold_price,
        total_long_stake: 0,
        total_short_stake: 0,
        status: MarketStatus::Open,
        settlement_price: None,
        created_at: now,
    };
    let event = MarketCreated { market_id, authority, asset_type, resolution_time, threshold_price };
    Ok((market, event))
}

/// Locks an open market whose lock time has come. Anyone may call this.
///
/// Fails with `MarketNotOpen` if the market is not open, else with
/// `LockTimeNotReached` if `now` is before the lock time; the market is
/// then left as it was.
pub fn lock_market(market: &mut Market, now: i64) -> (res: Result<MarketLocked, ErrorCode>)
    ensures
        match res {
            Ok(event) => {
                &&& lock_rejection(*old(market), now) is None
                &&& *final(market) == (Market { status: MarketStatus::Locked, ..*old(market) })
                &&& event == (MarketLocked { market_id: old(market).market_id, lock_time: now })
            },
            Err(e) => {
                &&& lock_rejection(*old(market), now) == Some(e)
                &&& *final(market) == *old(market)
            },
        },
        market_step(*old(market), *final(market)),
{
    if market.status != MarketStatus::Open {
        return Err(ErrorCode::MarketNotOpen);
    }
    if !lock_time_reached(market.resolution_time, now) {
        return Err(ErrorCode::LockTimeNotReached);
    }
    market.status = MarketStatus::Locked;
    Ok(MarketLocked { market_id: market.market_id, lock_time: now })
}

} // verus!
