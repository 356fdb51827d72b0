//! What a resolved market pays out in all, and that it is never more than
//! was staked in it.

use vstd::prelude::*;
use crate::codec::Direction;
use crate::ledger::{opposite, settlement, side_total, winning_direction};
use crate::model::{balanced, counted_stake, side_stake};
use crate::records::{Market, UserPosition};

verus! {

/// What a position is paid by a market; nothing where no settlement is
/// defined for it.
pub open spec fn paid(market: Market, position: UserPosition) -> int {
    match settlement(market, position) {
        Some(amount) => amount,
        None => 0,
    }
}

/// What all the positions together are paid by a market.
pub open spec fn total_paid(market: Market, positions: Seq<UserPosition>) -> int
    decreases positions.len(),
{
    if positions.len() == 0 {
        0
    } else {
        total_paid(market, positions.drop_last()) + paid(market, positions.last())
    }
}

/// A position is paid no more than its counted stake's share of the pool.
proof fn lemma_paid_share(market: Market, position: UserPosition, winner: Direction)
    requires
        winning_direction(market) == Some(winner),
        side_total(market, winner) > 0,
    ensures
        0 <= paid(market, position),
        paid(market, position) * side_total(market, winner) <= counted_stake(
            position,
            market.market_id,
            winner,
        ) * (market.total_long_stake + market.total_short_stake),
{
    let w = side_total(market, winner) as int;
    let l = side_total(market, opposite(winner)) as int;
    let pool = market.total_long_stake + market.total_short_stake;
    assert(w + l == pool);
    let stake = position.stake_amount as int;
    if position.market == market.market_id && position.revealed && position.direction == Some(
        winner,
    ) {
        let share = (stake * (w + l)) / w;
        assert(paid(market, position) == share);
        assert(0 <= share && share * w <= stake * (w + l)) by (nonlinear_arith)
            requires
                share == (stake * (w + l)) / w,
                w > 0,
                l >= 0,
                stake >= 0,
        ;
    } else {
        assert(paid(market, position) == 0);
        assert(0 * w == 0);
        assert(counted_stake(position, market.market_id, winner) * pool >= 0) by (nonlinear_arith)
            requires
                counted_stake(position, market.market_id, winner) >= 0,
                pool >= 0,
        ;
    }
}

/// All positions together are paid no more than the winning side's counted
/// stakes' share of the pool.
proof fn lemma_total_paid_share(market: Market, positions: Seq<UserPosition>, winner: Direction)
    requires
        winning_direction(market) == Some(winner),
        side_total(market, winner) > 0,
    ensures
        0 <= total_paid(market, positions),
        total_paid(market, positions) * side_total(market, winner) <= side_stake(
            positions,
            market.market_id,
            winner,
        ) * (market.total_long_stake + market.total_short_stake),
    decreases positions.len(),
{
    let w = side_total(market, winner) as int;
    let pool = market.total_long_stake + market.total_short_stake;
    if positions.len() > 0 {
        let rest = positions.drop_last();
        let last = positions.last();
        lemma_total_paid_share(market, rest, winner);
        lemma_paid_share(market, last, winner);
        let a = total_paid(market, rest);
        let b = paid(market, last);
        let x = side_stake(rest, market.market_id, winner) as int;
        let y = counted_stake(last, market.market_id, winner) as int;
        assert((a + b) * w <= (x + y) * pool) by (nonlinear_arith)
            requires
                a * w <= x * pool,
                b * w <= y * pool,
        ;
    } else {
        assert(0 * w <= 0 * pool) by (nonlinear_arith);
    }
}

/// A market whose totals are the sums of its revealed stakes never pays out
/// more than was staked in it: what all positions together are paid is at
/// most the sum of the two totals.
pub proof fn lemma_payouts_within_pool(market: Market, positions: Seq<UserPosition>)
    requires
        balanced(market, positions),
    ensures
        0 <= total_paid(market, positions) <= market.total_long_stake + market.total_short_stake,
{
    let pool = market.total_long_stake + market.total_short_stake;
    match winning_direction(market) {
        Some(winner) => {
            if side_total(market, winner) > 0 {
                lemma_total_paid_share(market, positions, winner);
                let w = side_total(market, winner) as int;
                let total = total_paid(market, positions);
                assert(side_stake(positions, market.market_id, winner) == w);
                assert(total <= pool) by (nonlinear_arith)
                    requires
                        total * w <= w * pool,
                        w > 0,
                ;
            } else {
                lemma_nothing_paid(market, positions);
            }
        },
        None => {
            lemma_nothing_paid(market, positions);
        },
    }
}

/// Without a winning side with a total above zero, only losing positions
/// have a settlement, and it is nothing.
proof fn lemma_nothing_paid(market: Market, positions: Seq<UserPosition>)
    requires
        winning_direction(market) matches Some(winner) ==> side_total(market, winner) == 0,
    ensures
        total_paid(market, positions) == 0,
    decreases positions.len(),
{
    if positions.len() > 0 {
        lemma_nothing_paid(market, positions.drop_last());
    }
}

} // verus!
