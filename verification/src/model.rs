//! The mathematical model of an exchange: all markets and all positions,
//! the audit log, and the requests as functions from one state to the next.

use vstd::prelude::*;
use crate::codec::Direction;
use crate::error::ErrorCode;
use crate::ledger::with_stake;
use crate::lifecycle::{lock_rejection, market_step, new_market};
use crate::protocol::{
    commit_rejection,
    committed_position,
    position_step,
    reveal_rejection,
    revealed_position,
};
use crate::records::{
    Address,
    AssetType,
    BetCommitted,
    BetRevealed,
    Event,
    Market,
    MarketCreated,
    MarketLocked,
    MarketStatus,
    UserPosition,
};

verus! {

/// Whether the market at index `i` has the id `market_id`.
pub open spec fn market_at(markets: Seq<Market>, market_id: u64, i: int) -> bool {
    0 <= i < markets.len() && markets[i].market_id == market_id
}

/// Whether some market has the id `market_id`.
pub open spec fn has_market(markets: Seq<Market>, market_id: u64) -> bool {
    exists|i: int| market_at(markets, market_id, i)
}

/// The index of a market with the id `market_id`, where there is one.
pub open spec fn market_index(markets: Seq<Market>, market_id: u64) -> int {
    choose|i: int| market_at(markets, market_id, i)
}

/// Whether the position at index `i` is the one of `user` in the market `market_id`.
pub open spec fn position_at(
    positions: Seq<UserPosition>,
    user: Address,
    market_id: u64,
    i: int,
) -> bool {
    0 <= i < positions.len() && positions[i].user == user && positions[i].market == market_id
}

/// Whether `user` holds a position in the market `market_id`.
pub open spec fn has_position(positions: Seq<UserPosition>, user: Address, market_id: u64) -> bool {
    exists|i: int| position_at(positions, user, market_id, i)
}

/// The index of the position of `user` in the market `market_id`, where there is one.
pub open spec fn position_index(positions: Seq<UserPosition>, user: Address, market_id: u64) -> int {
    choose|i: int| position_at(positions, user, market_id, i)
}

/// What one position adds to the total of one side of one market: its
/// stake, if it is a revealed position of that market on that side.
pub open spec fn counted_stake(position: UserPosition, market_id: u64, direction: Direction) -> nat {
    if position.market == market_id && position.revealed && position.direction == Some(direction) {
        position.stake_amount as nat
    } else {
        0
    }
}

/// The sum of the stakes of the revealed positions of one market on one side.
pub open spec fn side_stake(positions: Seq<UserPosition>, market_id: u64, direction: Direction) -> nat
    decreases positions.len(),
{
    if positions.len() == 0 {
        0
    } else {
        side_stake(positions.drop_last(), market_id, direction) + counted_stake(
            positions.last(),
            market_id,
            direction,
        )
    }
}

/// The sum of the stakes of all revealed positions of one market.
pub open spec fn revealed_stake(positions: Seq<UserPosition>, market_id: u64) -> nat
    decreases positions.len(),
{
    if positions.len() == 0 {
        0
    } else {
        revealed_stake(positions.drop_last(), market_id) + if positions.last().market == market_id
            && positions.last().revealed {
            positions.last().stake_amount as nat
        } else {
            0
        }
    }
}

/// Whether both totals of a market are the sums of the revealed stakes on
/// their side.
pub open spec fn balanced(market: Market, positions: Seq<UserPosition>) -> bool {
    &&& market.total_long_stake == side_stake(positions, market.market_id, Direction::Long)
    &&& market.total_short_stake == side_stake(positions, market.market_id, Direction::Short)
}

/// The event that reports the creation of a market.
pub open spec fn created_event(market: Market) -> Event {
    Event::MarketCreated(
        MarketCreated {
            market_id: market.market_id,
            authority: market.authority,
            asset_type: market.asset_type,
            resolution_time: market.resolution_time,
            threshold_price: market.threshold_price,
        },
    )
}

/// The event that reports the commitment of a position.
pub open spec fn committed_event(position: UserPosition) -> Event {
    Event::BetCommitted(
        BetCommitted {
            user: position.user,
            market: position.market,
            stake_amount: position.stake_amount,
            commitment_hash: position.commitment_hash,
        },
    )
}

/// The event that reports the reveal of a position as `direction`.
pub open spec fn revealed_event(position: UserPosition, direction: Direction) -> Event {
    Event::BetRevealed(
        BetRevealed {
            user: position.user,
            market: position.market,
            direction,
            stake_amount: position.stake_amount,
        },
    )
}

/// The event that reports the locking of a market at `now`.
pub open spec fn locked_event(market_id: u64, now: i64) -> Event {
    Event::MarketLocked(MarketLocked { market_id, lock_time: now })
}

/// The state of an exchange: its markets in the order of their creation,
/// its positions in the order of their commitment, and its audit log, one
/// event for each accepted request, in the order of the requests.
pub struct ExchangeView {
    pub markets: Seq<Market>,
    pub positions: Seq<UserPosition>,
    pub events: Seq<Event>,
}

impl ExchangeView {
    /// The state without markets, positions and events.
    pub open spec fn empty() -> ExchangeView {
        ExchangeView { markets: Seq::empty(), positions: Seq::empty(), events: Seq::empty() }
    }

    /// What holds of every state that the operations reach: no two markets
    /// share an id; no participant holds two positions in one market; every
    /// position is in a market that exists; a revealed position has a
    /// direction; and every market's totals are the sums of the revealed
    /// stakes on their side.
    pub open spec fn consistent(self) -> bool {
        &&& forall|i: int, j: int|
            0 <= i < j < self.markets.len() ==> (#[trigger] self.markets[i]).market_id != (
            #[trigger] self.markets[j]).market_id
        &&& forall|i: int, j: int|
            0 <= i < j < self.positions.len() ==> !((#[trigger] self.positions[i]).user == (
            #[trigger] self.positions[j]).user && self.positions[i].market
                == self.positions[j].market)
        &&& forall|i: int|
            0 <= i < self.positions.len() ==> has_market(
                self.markets,
                (#[trigger] self.positions[i]).market,
            )
        &&& forall|i: int|
            0 <= i < self.positions.len() ==> ((#[trigger] self.positions[i]).revealed
                ==> self.positions[i].direction is Some)
        &&& forall|i: int|
            0 <= i < self.markets.len() ==> balanced(#[trigger] self.markets[i], self.positions)
    }

    /// The market with the id `market_id`, where there is one.
    pub open spec fn market(self, market_id: u64) -> Market {
        self.markets[market_index(self.markets, market_id)]
    }

    /// The position of `user` in the market `market_id`, where there is one.
    pub open spec fn position(self, user: Address, market_id: u64) -> UserPosition {
        self.positions[position_index(self.positions, user, market_id)]
    }

    /// Why a market cannot be created, if anything stands in the way: its
    /// id is taken, or its resolution time is not in the future.
    pub open spec fn create_rejection(self, market_id: u64, resolution_time: i64, now: i64) -> Option<
        ErrorCode,
    > {
        if has_market(self.markets, market_id) {
            Some(ErrorCode::DuplicateMarket)
        } else if resolution_time <= now {
            Some(ErrorCode::InvalidResolutionTime)
        } else {
            None
        }
    }

    /// The state after a market has been created.
    pub open spec fn with_market(self, market: Market) -> ExchangeView {
        ExchangeView {
            markets: self.markets.push(market),
            events: self.events.push(created_event(market)),
            ..self
        }
    }

    /// Why `user` cannot commit a stake to the market `market_id`, if
    /// anything stands in the way: there is no such market, the user holds
    /// a position in it already, or the market refuses the commit.
    pub open spec fn commit_rejection(
        self,
        user: Address,
        market_id: u64,
        stake_amount: u64,
        now: i64,
    ) -> Option<ErrorCode> {
        if !has_market(self.markets, market_id) {
            Some(ErrorCode::MarketNotFound)
        } else if has_position(self.positions, user, market_id) {
            Some(ErrorCode::DuplicateCommitment)
        } else {
            commit_rejection(self.market(market_id), stake_amount, now)
        }
    }

    /// The state after a position has been committed.
    pub open spec fn with_position(self, position: UserPosition) -> ExchangeView {
        ExchangeView {
            positions: self.positions.push(position),
            events: self.events.push(committed_event(position)),
            ..self
        }
    }

    /// Why `user` cannot reveal a position in the market `market_id`, if
    /// anything stands in the way: there is no such market, the user holds
    /// no position in it, or the reveal itself is refused.
    pub open spec fn reveal_rejection(
        self,
        user: Address,
        market_id: u64,
        direction: Direction,
        digest: Seq<u8>,
        now: i64,
    ) -> Option<ErrorCode> {
        if !has_market(self.markets, market_id) {
            Some(ErrorCode::MarketNotFound)
        } else if !has_position(self.positions, user, market_id) {
            Some(ErrorCode::PositionNotFound)
        } else {
            reveal_rejection(
                self.market(market_id),
                self.position(user, market_id),
                direction,
                digest,
                now,
            )
        }
    }

    /// The state after the position of `user` in the market `market_id` has
    /// been revealed as `direction`.
    pub open spec fn revealed(self, user: Address, market_id: u64, direction: Direction) -> ExchangeView {
        let position = self.position(user, market_id);
        ExchangeView {
            markets: self.markets.update(
                market_index(self.markets, market_id),
                with_stake(self.market(market_id), direction, position.stake_amount),
            ),
            positions: self.positions.update(
                position_index(self.positions, user, market_id),
                revealed_position(position, direction),
            ),
            events: self.events.push(revealed_event(position, direction)),
        }
    }

    /// Why the market `market_id` cannot be locked, if anything stands in
    /// the way.
    pub open spec fn lock_rejection(self, market_id: u64, now: i64) -> Option<ErrorCode> {
        if !has_market(self.markets, market_id) {
            Some(ErrorCode::MarketNotFound)
        } else {
            lock_rejection(self.market(market_id), now)
        }
    }

    /// The state after the market `market_id` has been locked at `now`.
    pub open spec fn locked(self, market_id: u64, now: i64) -> ExchangeView {
        ExchangeView {
            markets: self.markets.update(
                market_index(self.markets, market_id),
                (Market { status: MarketStatus::Locked, ..self.market(market_id) }),
            ),
            events: self.events.push(locked_event(market_id, now)),
            ..self
        }
    }

    /// Whether `self` can have come from `before`: every record of `before`
    /// is still there, in its place, and differs from its earlier state
    /// only as a record may; and the audit log has only grown at its end.
    pub open spec fn follows(self, before: ExchangeView) -> bool {
        &&& before.markets.len() <= self.markets.len()
        &&& before.positions.len() <= self.positions.len()
        &&& before.events.len() <= self.events.len()
        &&& forall|i: int|
            0 <= i < before.events.len() ==> self.events[i] == #[trigger] before.events[i]
        &&& forall|i: int|
            0 <= i < before.markets.len() ==> market_step(
                #[trigger] before.markets[i],
                self.markets[i],
            )
        &&& forall|i: int|
            0 <= i < before.positions.len() ==> position_step(
                #[trigger] before.positions[i],
                self.positions[i],
            )
    }
}

/// One request to an exchange, with all that it is given.
pub enum Operation {
    CreateMarket {
        authority: Address,
        market_id: u64,
        asset_type: AssetType,
        resolution_time: i64,
        pyth_feed_account: Address,
        threshold_price: i64,
        now: i64,
    },
    CommitBet { user: Address, market_id: u64, stake_amount: u64, commitment_hash: [u8; 32], now: i64 },
    /// A reveal, with the commitment digest recomputed from what was revealed.
    RevealBet { user: Address, market_id: u64, direction: Direction, digest: Seq<u8>, now: i64 },
    LockMarket { market_id: u64, now: i64 },
}

impl ExchangeView {
    /// Why a request is refused, if it is.
    pub open spec fn rejection(self, operation: Operation) -> Option<ErrorCode> {
        match operation {
            Operation::CreateMarket { market_id, resolution_time, now, .. } => self.create_rejection(
                market_id,
                resolution_time,
                now,
            ),
            Operation::CommitBet { user, market_id, stake_amount, now, .. } => self.commit_rejection(
                user,
                market_id,
                stake_amount,
                now,
            ),
            Operation::RevealBet { user, market_id, direction, digest, now } => self.reveal_rejection(
                user,
                market_id,
                direction,
                digest,
                now,
            ),
            Operation::LockMarket { market_id, now } => self.lock_rejection(market_id, now),
        }
    }

    /// The state after a request: changed as the request asks where it is
    /// accepted, and the same state where it is refused.
    pub open spec fn apply(self, operation: Operation) -> ExchangeView {
        if self.rejection(operation) is Some {
            self
        } else {
            match operation {
                Operation::CreateMarket {
                    authority,
                    market_id,
                    asset_type,
                    resolution_time,
                    pyth_feed_account,
                    threshold_price,
                    now,
                } => self.with_market(
                    new_market(
                        authority,
                        market_id,
                        asset_type,
                        resolution_time,
                        pyth_feed_account,
                        threshold_price,
                        now,
                    ),
                ),
                Operation::CommitBet {
                    user,
                    market_id,
                    stake_amount,
                    commitment_hash,
                    now,
                } => self.with_position(
                    committed_position(
                        self.market(market_id),
                        user,
                        stake_amount,
                        commitment_hash,
                        now,
                    ),
                ),
                Operation::RevealBet { user, market_id, direction, .. } => self.revealed(
                    user,
                    market_id,
                    direction,
                ),
                Operation::LockMarket { market_id, now } => self.locked(market_id, now),
            }
        }
    }

    /// The state after a sequence of requests, made one after the other.
    pub open spec fn run(self, operations: Seq<Operation>) -> ExchangeView
        decreases operations.len(),
    {
        if operations.len() == 0 {
            self
        } else {
            self.run(operations.drop_last()).apply(operations.last())
        }
    }
}

} // verus!
