//! What holds of every state that an exchange can reach, and why: each
//! request keeps the state consistent, so the stake totals of every market
//! are always the sums of its revealed stakes.

use vstd::prelude::*;
use crate::codec::Direction;
use crate::error::ErrorCode;
use crate::ledger::with_stake;
use crate::lifecycle::{in_reveal_window, market_step, new_market};
use crate::model::{
    balanced,
    counted_stake,
    has_market,
    has_position,
    market_at,
    market_index,
    position_at,
    position_index,
    revealed_stake,
    side_stake,
    ExchangeView,
    Operation,
};
use crate::protocol::{committed_position, position_step, revealed_position};
use crate::records::{Address, Market, MarketStatus, UserPosition};

verus! {

/// With distinct market ids, the market with a given id has one index only.
pub proof fn lemma_market_index(markets: Seq<Market>, market_id: u64, i: int)
    requires
        forall|a: int, b: int|
            0 <= a < b < markets.len() ==> (#[trigger] markets[a]).market_id != (
            #[trigger] markets[b]).market_id,
        market_at(markets, market_id, i),
    ensures
        has_market(markets, market_id),
        market_index(markets, market_id) == i,
{
    let j = market_index(markets, market_id);
    assert(market_at(markets, market_id, j));
    if j < i {
        assert(markets[j].market_id != markets[i].market_id);
    }
    if i < j {
        assert(markets[i].market_id != markets[j].market_id);
    }
}

/// Where no participant holds two positions in one market, the position of
/// a participant in a market has one index only.
pub proof fn lemma_position_index(
    positions: Seq<UserPosition>,
    user: Address,
    market_id: u64,
    i: int,
)
    requires
        forall|a: int, b: int|
            0 <= a < b < positions.len() ==> !((#[trigger] positions[a]).user == (
            #[trigger] positions[b]).user && positions[a].market == positions[b].market),
        position_at(positions, user, market_id, i),
    ensures
        has_position(positions, user, market_id),
        position_index(positions, user, market_id) == i,
{
    let j = position_index(positions, user, market_id);
    assert(position_at(positions, user, market_id, j));
    if j < i {
        assert(!(positions[j].user == positions[i].user && positions[j].market
            == positions[i].market));
    }
    if i < j {
        assert(!(positions[i].user == positions[j].user && positions[i].market
            == positions[j].market));
    }
}

/// A new position adds to a side's sum exactly what it counts for.
proof fn lemma_side_stake_push(
    positions: Seq<UserPosition>,
    position: UserPosition,
    market_id: u64,
    direction: Direction,
)
    ensures
        side_stake(positions.push(position), market_id, direction) == side_stake(
            positions,
            market_id,
            direction,
        ) + counted_stake(position, market_id, direction),
{
    assert(positions.push(position).drop_last() =~= positions);
    assert(positions.push(position).last() == position);
}

/// Replacing one position changes a side's sum by the difference of what
/// the old and the new position count for.
proof fn lemma_side_stake_update(
    positions: Seq<UserPosition>,
    i: int,
    position: UserPosition,
    market_id: u64,
    direction: Direction,
)
    requires
        0 <= i < positions.len(),
    ensures
        side_stake(positions.update(i, position), market_id, direction) + counted_stake(
            positions[i],
            market_id,
            direction,
        ) == side_stake(positions, market_id, direction) + counted_stake(
            position,
            market_id,
            direction,
        ),
    decreases positions.len(),
{
    let updated = positions.update(i, position);
    if i == positions.len() - 1 {
        assert(updated.drop_last() =~= positions.drop_last());
        assert(updated.last() == position);
    } else {
        assert(updated.drop_last() =~= positions.drop_last().update(i, position));
        assert(updated.last() == positions.last());
        assert(positions.drop_last()[i] == positions[i]);
        lemma_side_stake_update(positions.drop_last(), i, position, market_id, direction);
    }
}

/// Where every revealed position has a direction, the sums of the two sides
/// of a market add up to the sum of all its revealed stakes.
pub proof fn lemma_sides_add_up(positions: Seq<UserPosition>, market_id: u64)
    requires
        forall|i: int|
            0 <= i < positions.len() ==> ((#[trigger] positions[i]).revealed
                ==> positions[i].direction is Some),
    ensures
        side_stake(positions, market_id, Direction::Long) + side_stake(
            positions,
            market_id,
            Direction::Short,
        ) == revealed_stake(positions, market_id),
    decreases positions.len(),
{
    if positions.len() > 0 {
        let rest = positions.drop_last();
        assert forall|i: int|
            0 <= i < rest.len() && (#[trigger] rest[i]).revealed implies rest[i].direction
            is Some by {
            assert(rest[i] == positions[i]);
        }
        lemma_sides_add_up(rest, market_id);
        let last = positions.last();
        assert(last == positions[positions.len() - 1]);
        if last.revealed {
            assert(last.direction is Some);
            match last.direction {
                Some(Direction::Long) => {},
                Some(Direction::Short) => {},
                None => {},
            }
        }
    }
}

/// In every consistent state, the two totals of each market add up to the
/// sum of the stakes of all its revealed positions: every revealed stake is
/// counted once, and nothing else is.
pub proof fn lemma_totals_are_revealed_stake(state: ExchangeView, i: int)
    requires
        state.consistent(),
        0 <= i < state.markets.len(),
    ensures
        state.markets[i].total_long_stake + state.markets[i].total_short_stake == revealed_stake(
            state.positions,
            state.markets[i].market_id,
        ),
{
    assert(balanced(state.markets[i], state.positions));
    lemma_sides_add_up(state.positions, state.markets[i].market_id);
}

/// Creating a market keeps a consistent state consistent, and the new state
/// follows the old one.
pub proof fn lemma_create_market_consistent(state: ExchangeView, market: Market)
    requires
        state.consistent(),
        !has_market(state.markets, market.market_id),
        market.total_long_stake == 0,
        market.total_short_stake == 0,
    ensures
        state.with_market(market).consistent(),
        state.with_market(market).follows(state),
{
    let next = state.with_market(market);
    let n = state.markets.len() as int;
    assert forall|i: int, j: int| 0 <= i < j < next.markets.len() implies (
    #[trigger] next.markets[i]).market_id != (#[trigger] next.markets[j]).market_id by {
        if j == n {
            assert(next.markets[i] == state.markets[i]);
            assert(!market_at(state.markets, market.market_id, i));
        } else {
            assert(next.markets[i] == state.markets[i]);
            assert(next.markets[j] == state.markets[j]);
        }
    }
    assert forall|i: int| 0 <= i < next.positions.len() implies has_market(
        next.markets,
        (#[trigger] next.positions[i]).market,
    ) by {
        let id = state.positions[i].market;
        assert(has_market(state.markets, id));
        let k = market_index(state.markets, id);
        assert(market_at(state.markets, id, k));
        assert(next.markets[k] == state.markets[k]);
        assert(market_at(next.markets, id, k));
    }
    assert forall|i: int| 0 <= i < next.markets.len() implies balanced(
        #[trigger] next.markets[i],
        next.positions,
    ) by {
        if i == n {
            lemma_no_position_no_stake(state, market.market_id, Direction::Long);
            lemma_no_position_no_stake(state, market.market_id, Direction::Short);
        } else {
            assert(next.markets[i] == state.markets[i]);
            assert(balanced(state.markets[i], state.positions));
        }
    }
    assert forall|i: int| 0 <= i < state.markets.len() implies market_step(
        #[trigger] state.markets[i],
        next.markets[i],
    ) by {
        assert(next.markets[i] == state.markets[i]);
    }
}

/// In a consistent state, a market id that no market has is the id of no
/// position's market, so nothing is staked under it.
proof fn lemma_no_position_no_stake(state: ExchangeView, market_id: u64, direction: Direction)
    requires
        state.consistent(),
        !has_market(state.markets, market_id),
    ensures
        side_stake(state.positions, market_id, direction) == 0,
{
    assert forall|i: int| 0 <= i < state.positions.len() implies (
    #[trigger] state.positions[i]).market != market_id by {
        assert(has_market(state.markets, state.positions[i].market));
    }
    lemma_foreign_positions_count_nothing(state.positions, market_id, direction);
}

/// Positions of other markets add nothing to a market's sums.
proof fn lemma_foreign_positions_count_nothing(
    positions: Seq<UserPosition>,
    market_id: u64,
    direction: Direction,
)
    requires
        forall|i: int| 0 <= i < positions.len() ==> (#[trigger] positions[i]).market != market_id,
    ensures
        side_stake(positions, market_id, direction) == 0,
    decreases positions.len(),
{
    if positions.len() > 0 {
        let rest = positions.drop_last();
        assert forall|i: int| 0 <= i < rest.len() implies (#[trigger] rest[i]).market
            != market_id by {
            assert(rest[i] == positions[i]);
        }
        lemma_foreign_positions_count_nothing(rest, market_id, direction);
        assert(positions.last() == positions[positions.len() - 1]);
    }
}

/// Committing a position keeps a consistent state consistent, and the new
/// state follows the old one.
pub proof fn lemma_commit_consistent(state: ExchangeView, position: UserPosition)
    requires
        state.consistent(),
        has_market(state.markets, position.market),
        !has_position(state.positions, position.user, position.market),
        !position.revealed,
    ensures
        state.with_position(position).consistent(),
        state.with_position(position).follows(state),
{
    let next = state.with_position(position);
    let n = state.positions.len() as int;
    assert forall|i: int, j: int| 0 <= i < j < next.positions.len() implies !((
    #[trigger] next.positions[i]).user == (#[trigger] next.positions[j]).user
        && next.positions[i].market == next.positions[j].market) by {
        assert(next.positions[i] == state.positions[i]);
        if j == n {
            assert(!position_at(state.positions, position.user, position.market, i));
        } else {
            assert(next.positions[j] == state.positions[j]);
        }
    }
    assert forall|i: int| 0 <= i < next.positions.len() implies has_market(
        next.markets,
        (#[trigger] next.positions[i]).market,
    ) by {
        if i < n {
            assert(next.positions[i] == state.positions[i]);
        }
    }
    assert forall|i: int|
        0 <= i < next.positions.len() && (
        #[trigger] next.positions[i]).revealed implies next.positions[i].direction is Some by {
        if i < n {
            assert(next.positions[i] == state.positions[i]);
        }
    }
    assert forall|i: int| 0 <= i < next.markets.len() implies balanced(
        #[trigger] next.markets[i],
        next.positions,
    ) by {
        assert(balanced(state.markets[i], state.positions));
        lemma_side_stake_push(
            state.positions,
            position,
            state.markets[i].market_id,
            Direction::Long,
        );
        lemma_side_stake_push(
            state.positions,
            position,
            state.markets[i].market_id,
            Direction::Short,
        );
    }
    assert forall|i: int| 0 <= i < state.positions.len() implies position_step(
        #[trigger] state.positions[i],
        next.positions[i],
    ) by {
        assert(next.positions[i] == state.positions[i]);
    }
}

/// Revealing a position keeps a consistent state consistent, and the new
/// state follows the old one: the stake is counted on the revealed side of
/// its own market, once, and on no other side or market.
pub proof fn lemma_reveal_consistent(
    state: ExchangeView,
    user: Address,
    market_id: u64,
    direction: Direction,
    digest: Seq<u8>,
    now: i64,
)
    requires
        state.consistent(),
        state.reveal_rejection(user, market_id, direction, digest, now) is None,
    ensures
        state.revealed(user, market_id, direction).consistent(),
        state.revealed(user, market_id, direction).follows(state),
{
    let next = state.revealed(user, market_id, direction);
    let mi = market_index(state.markets, market_id);
    let pi = position_index(state.positions, user, market_id);
    assert(market_at(state.markets, market_id, mi));
    assert(position_at(state.positions, user, market_id, pi));
    let market = state.markets[mi];
    let position = state.positions[pi];
    let credited = with_stake(market, direction, position.stake_amount);
    let shown = revealed_position(position, direction);
    assert(next.markets == state.markets.update(mi, credited));
    assert(next.positions == state.positions.update(pi, shown));
    assert(!position.revealed);
    assert(credited.market_id == market_id);

    assert forall|i: int, j: int| 0 <= i < j < next.markets.len() implies (
    #[trigger] next.markets[i]).market_id != (#[trigger] next.markets[j]).market_id by {
        assert(next.markets[i].market_id == state.markets[i].market_id);
        assert(next.markets[j].market_id == state.markets[j].market_id);
    }
    assert forall|i: int, j: int| 0 <= i < j < next.positions.len() implies !((
    #[trigger] next.positions[i]).user == (#[trigger] next.positions[j]).user
        && next.positions[i].market == next.positions[j].market) by {
        assert(next.positions[i].user == state.positions[i].user);
        assert(next.positions[i].market == state.positions[i].market);
        assert(next.positions[j].user == state.positions[j].user);
        assert(next.positions[j].market == state.positions[j].market);
    }
    assert forall|i: int| 0 <= i < next.positions.len() implies has_market(
        next.markets,
        (#[trigger] next.positions[i]).market,
    ) by {
        let id = state.positions[i].market;
        assert(next.positions[i].market == id);
        assert(has_market(state.markets, id));
        let k = market_index(state.markets, id);
        assert(market_at(state.markets, id, k));
        assert(next.markets[k].market_id == state.markets[k].market_id);
        assert(market_at(next.markets, id, k));
    }
    assert forall|i: int|
        0 <= i < next.positions.len() && (
        #[trigger] next.positions[i]).revealed implies next.positions[i].direction is Some by {
        if i != pi {
            assert(next.positions[i] == state.positions[i]);
        }
    }
    assert forall|i: int| 0 <= i < next.markets.len() implies balanced(
        #[trigger] next.markets[i],
        next.positions,
    ) by {
        let id = state.markets[i].market_id;
        assert(balanced(state.markets[i], state.positions));
        lemma_side_stake_update(state.positions, pi, shown, id, Direction::Long);
        lemma_side_stake_update(state.positions, pi, shown, id, Direction::Short);
        if i == mi {
            assert(next.markets[i] == credited);
        } else {
            assert(next.markets[i] == state.markets[i]);
            if i < mi {
                assert(state.markets[i].market_id != state.markets[mi].market_id);
            } else {
                assert(state.markets[mi].market_id != state.markets[i].market_id);
            }
        }
    }
    assert forall|i: int| 0 <= i < state.markets.len() implies market_step(
        #[trigger] state.markets[i],
        next.markets[i],
    ) by {
        if i != mi {
            assert(next.markets[i] == state.markets[i]);
        }
    }
    assert forall|i: int| 0 <= i < state.positions.len() implies position_step(
        #[trigger] state.positions[i],
        next.positions[i],
    ) by {
        if i != pi {
            assert(next.positions[i] == state.positions[i]);
        }
    }
}

/// Locking a market keeps a consistent state consistent, and the new state
/// follows the old one.
pub proof fn lemma_lock_consistent(state: ExchangeView, market_id: u64, now: i64)
    requires
        state.consistent(),
        state.lock_rejection(market_id, now) is None,
    ensures
        state.locked(market_id, now).consistent(),
        state.locked(market_id, now).follows(state),
{
    let next = state.locked(market_id, now);
    let mi = market_index(state.markets, market_id);
    assert(market_at(state.markets, market_id, mi));
    assert forall|i: int, j: int| 0 <= i < j < next.markets.len() implies (
    #[trigger] next.markets[i]).market_id != (#[trigger] next.markets[j]).market_id by {
        assert(next.markets[i].market_id == state.markets[i].market_id);
        assert(next.markets[j].market_id == state.markets[j].market_id);
    }
    assert forall|i: int| 0 <= i < next.positions.len() implies has_market(
        next.markets,
        (#[trigger] next.positions[i]).market,
    ) by {
        let id = state.positions[i].market;
        assert(has_market(state.markets, id));
        let k = market_index(state.markets, id);
        assert(market_at(state.markets, id, k));
        assert(next.markets[k].market_id == state.markets[k].market_id);
        assert(market_at(next.markets, id, k));
    }
    assert forall|i: int| 0 <= i < next.markets.len() implies balanced(
        #[trigger] next.markets[i],
        next.positions,
    ) by {
        assert(balanced(state.markets[i], state.positions));
    }
    assert forall|i: int| 0 <= i < state.markets.len() implies market_step(
        #[trigger] state.markets[i],
        next.markets[i],
    ) by {
        if i != mi {
            assert(next.markets[i] == state.markets[i]);
        }
    }
    assert forall|i: int| 0 <= i < state.positions.len() implies position_step(
        #[trigger] state.positions[i],
        next.positions[i],
    ) by {
    }
}

/// A position in an exchange is revealed at most once: after an accepted
/// reveal, every further reveal by the same participant in the same market
/// is refused, and within the reveal window the refusal is
/// `AlreadyRevealed`. A refused reveal changes nothing, so the stake stays
/// counted once.
pub proof fn lemma_exchange_reveal_latch(
    state: ExchangeView,
    user: Address,
    market_id: u64,
    first_direction: Direction,
    first_digest: Seq<u8>,
    first_now: i64,
    direction: Direction,
    digest: Seq<u8>,
    now: i64,
)
    requires
        state.consistent(),
        state.reveal_rejection(user, market_id, first_direction, first_digest, first_now) is None,
    ensures
        state.revealed(user, market_id, first_direction).reveal_rejection(
            user,
            market_id,
            direction,
            digest,
            now,
        ) is Some,
        in_reveal_window(state.market(market_id).resolution_time, now) ==> state.revealed(
            user,
            market_id,
            first_direction,
        ).reveal_rejection(user, market_id, direction, digest, now) == Some(
            ErrorCode::AlreadyRevealed,
        ),
{
    let next = state.revealed(user, market_id, first_direction);
    let mi = market_index(state.markets, market_id);
    let pi = position_index(state.positions, user, market_id);
    assert(market_at(state.markets, market_id, mi));
    assert(position_at(state.positions, user, market_id, pi));
    lemma_reveal_consistent(state, user, market_id, first_direction, first_digest, first_now);
    assert(market_at(next.markets, market_id, mi));
    assert(position_at(next.positions, user, market_id, pi));
    lemma_market_index(next.markets, market_id, mi);
    lemma_position_index(next.positions, user, market_id, pi);
    assert(next.position(user, market_id).revealed);
    assert(next.market(market_id).status == MarketStatus::Locked);
}

/// Every request, accepted or refused, takes a consistent state to a
/// consistent state that follows it.
pub proof fn lemma_apply_consistent(state: ExchangeView, operation: Operation)
    requires
        state.consistent(),
    ensures
        state.apply(operation).consistent(),
        state.apply(operation).follows(state),
{
    if state.rejection(operation) is Some {
        assert(state.apply(operation) == state);
    } else {
        match operation {
            Operation::CreateMarket {
                authority,
                market_id,
                asset_type,
                resolution_time,
                pyth_feed_account,
                threshold_price,
                now,
            } => {
                lemma_create_market_consistent(
                    state,
                    new_market(
                        authority,
                        market_id,
                        asset_type,
                        resolution_time,
                        pyth_feed_account,
                        threshold_price,
                        now,
                    ),
                );
            },
            Operation::CommitBet { user, market_id, stake_amount, commitment_hash, now } => {
                let mi = market_index(state.markets, market_id);
                assert(market_at(state.markets, market_id, mi));
                lemma_commit_consistent(
                    state,
                    committed_position(
                        state.market(market_id),
                        user,
                        stake_amount,
                        commitment_hash,
                        now,
                    ),
                );
            },
            Operation::RevealBet { user, market_id, direction, digest, now } => {
                lemma_reveal_consistent(state, user, market_id, direction, digest, now);
            },
            Operation::LockMarket { market_id, now } => {
                lemma_lock_consistent(state, market_id, now);
            },
        }
    }
}

/// After any sequence of requests to an exchange that started empty, the
/// state is consistent; so the two totals of every market add up to the sum
/// of the stakes of all its revealed positions, exactly.
pub proof fn lemma_every_run_consistent(operations: Seq<Operation>)
    ensures
        ExchangeView::empty().run(operations).consistent(),
        forall|i: int|
            0 <= i < ExchangeView::empty().run(operations).markets.len() ==> {
                let market = #[trigger] ExchangeView::empty().run(operations).markets[i];
                market.total_long_stake + market.total_short_stake == revealed_stake(
                    ExchangeView::empty().run(operations).positions,
                    market.market_id,
                )
            },
    decreases operations.len(),
{
    if operations.len() > 0 {
        lemma_every_run_consistent(operations.drop_last());
        lemma_apply_consistent(
            ExchangeView::empty().run(operations.drop_last()),
            operations.last(),
        );
    }
    let end = ExchangeView::empty().run(operations);
    assert forall|i: int| 0 <= i < end.markets.len() implies {
        let market = #[trigger] end.markets[i];
        market.total_long_stake + market.total_short_stake == revealed_stake(
            end.positions,
            market.market_id,
        )
    } by {
        lemma_totals_are_revealed_stake(end, i);
    }
}

} // verus!
