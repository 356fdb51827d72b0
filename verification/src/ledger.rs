//! Stake ledger: the two stake totals of a market and what a position is
//! paid once the market is resolved.
//!
//! The totals grow only through [`credit_stake`], which refuses an addition
//! that the accumulator cannot hold. A winning position is paid its share
//! of the whole pool in proportion to its stake, rounded down; what the
//! rounding leaves over stays in the pool.

use vstd::prelude::*;
use vstd::arithmetic::div_mod::lemma_hoist_over_denominator;
use crate::codec::Direction;
use crate::error::ErrorCode;
use crate::records::{Market, MarketStatus, UserPosition};

verus! {

/// The stake total of one side of a market.
pub open spec fn side_total(market: Market, direction: Direction) -> u64 {
    match direction {
        Direction::Long => market.total_long_stake,
        Direction::Short => market.total_short_stake,
    }
}

/// The direction that is not `direction`.
pub open spec fn opposite(direction: Direction) -> Direction {
    match direction {
        Direction::Long => Direction::Short,
        Direction::Short => Direction::Long,
    }
}

/// The market after `amount` has been added to the total of one side.
pub open spec fn with_stake(market: Market, direction: Direction, amount: u64) -> Market
    recommends
        side_total(market, direction) + amount <= u64::MAX,
{
    match direction {
        Direction::Long => Market {
            total_long_stake: (market.total_long_stake + amount) as u64,
            ..market
        },
        Direction::Short => Market {
            total_short_stake: (market.total_short_stake + amount) as u64,
            ..market
        },
    }
}

/// The side that won a resolved market: `Long` if the settlement price is
/// above the threshold, `Short` if it is below. A market that is not
/// resolved, or whose price equals the threshold, has no winning side.
pub open spec fn winning_direction(market: Market) -> Option<Direction> {
    if market.status == MarketStatus::Resolved {
        match market.settlement_price {
            Some(price) => if price > market.threshold_price {
                Some(Direction::Long)
            } else if price < market.threshold_price {
                Some(Direction::Short)
            } else {
                None
            },
            None => None,
        }
    } else {
        None
    }
}

/// A winning stake's share of the pool: the stake times the whole pool,
/// divided by the winning side's total and rounded down.
pub open spec fn proportional_payout(stake: u64, winning_total: u64, losing_total: u64) -> int
    recommends
        winning_total > 0,
{
    (stake * (winning_total + losing_total)) / (winning_total as int)
}

/// What a position is paid by a market, where this is defined: nothing on
/// the losing side, the proportional share on the winning side. It is
/// defined only for a revealed position of that market, once the market has
/// a winning side with a total above zero.
pub open spec fn settlement(market: Market, position: UserPosition) -> Option<int> {
    match (winning_direction(market), position.direction) {
        (Some(winner), Some(direction)) => if position.market != market.market_id
            || !position.revealed {
            None
        } else if direction != winner {
            Some(0)
        } else if side_total(market, winner) == 0 {
            None
        } else {
            Some(
                proportional_payout(
                    position.stake_amount,
                    side_total(market, winner),
                    side_total(market, opposite(winner)),
                ),
            )
        },
        _ => None,
    }
}

/// Reads both stake totals of a market: first `Long`, then `Short`.
pub fn stake_totals(market: &Market) -> (totals: (u64, u64))
    ensures
        totals.0 == market.total_long_stake,
        totals.1 == market.total_short_stake,
{
    (market.total_long_stake, market.total_short_stake)
}

/// Adds `amount` to the total of one side with a checked addition.
///
/// Fails with `MathOverflow`, leaving the market as it was, exactly when
/// the sum does not fit the accumulator.
pub fn credit_stake(market: &mut Market, direction: Direction, amount: u64) -> (res: Result<
    (),
    ErrorCode,
>)
    ensures
        match res {
            Ok(_) => {
                &&& side_total(*old(market), direction) + amount <= u64::MAX
                &&& *final(market) == with_stake(*old(market), direction, amount)
            },
            Err(e) => {
                &&& e == ErrorCode::MathOverflow
                &&& side_total(*old(market), direction) + amount > u64::MAX
                &&& *final(market) == *old(market)
            },
        },
{
    match direction {
        Direction::Long => {
            match market.total_long_stake.checked_add(amount) {
                Some(total) => {
                    market.total_long_stake = total;
                    Ok(())
                },
                None => Err(ErrorCode::MathOverflow),
            }
        },
        Direction::Short => {
            match market.total_short_stake.checked_add(amount) {
                Some(total) => {
                    market.total_short_stake = total;
                    Ok(())
                },
                None => Err(ErrorCode::MathOverflow),
            }
        },
    }
}

/// Tells which side won a market, if any did.
pub fn winner(market: &Market) -> (side: Option<Direction>)
    ensures
        side == winning_direction(*market),
{
    if market.status != MarketStatus::Resolved {
        return None;
    }
    match market.settlement_price {
        Some(price) => {
            if price > market.threshold_price {
                Some(Direction::Long)
            } else if price < market.threshold_price {
                Some(Direction::Short)
            } else {
                None
            }
        },
        None => None,
    }
}

/// Computes a winning stake's share of the pool, rounded down. There is no
/// share where the winning side's total is zero.
pub fn payout(stake: u64, winning_total: u64, losing_total: u64) -> (amount: Option<u128>)
    ensures
        winning_total == 0 ==> amount is None,
        winning_total > 0 ==> amount == Some(
            proportional_payout(stake, winning_total, losing_total) as u128,
        ) && proportional_payout(stake, winning_total, losing_total) <= u128::MAX,
{
    if winning_total == 0 {
        return None;
    }
    let s: u128 = stake as u128;
    let w: u128 = winning_total as u128;
    let l: u128 = losing_total as u128;
    assert(s * l <= 0xffff_ffff_ffff_ffff * 0xffff_ffff_ffff_ffff) by (nonlinear_arith)
        requires
            0 <= s <= 0xffff_ffff_ffff_ffff,
            0 <= l <= 0xffff_ffff_ffff_ffff,
    ;
    let extra: u128 = (s * l) / w;
    assert(extra <= s * l) by (nonlinear_arith)
        requires
            extra == (s * l) / (w as int),
            w >= 1,
            s * l >= 0,
    ;
    proof {
        lemma_hoist_over_denominator(s * l, s as int, w as nat);
        assert(s * l + s * w == s * (w + l)) by (nonlinear_arith);
    }
    Some(s + extra)
}

/// Computes what a position is paid by a market, where that is defined.
pub fn settlement_amount(market: &Market, position: &UserPosition) -> (amount: Option<u128>)
    ensures
        match amount {
            Some(paid) => settlement(*market, *position) == Some(paid as int),
            None => settlement(*market, *position) is None,
        },
{
    let winner = match winner(market) {
        Some(w) => w,
        None => {
            return None;
        },
    };
    let direction = match position.direction {
        Some(d) => d,
        None => {
            return None;
        },
    };
    if position.market != market.market_id || !position.revealed {
        return None;
    }
    if direction != winner {
        return Some(0);
    }
    match winner {
        Direction::Long => payout(
            position.stake_amount,
            market.total_long_stake,
            market.total_short_stake,
        ),
        Direction::Short => payout(
            position.stake_amount,
            market.total_short_stake,
            market.total_long_stake,
        ),
    }
}

} // verus!
