//! The exchange: a keyed store of markets and positions, and the four
//! operations on it.
//!
//! A market is found by its id, a position by its participant and its
//! market's id. Every operation first finds the records it is about, then
//! applies the rule of the lifecycle or of the protocol to them, and on
//! success writes back and appends the event to the audit log.

use vstd::prelude::*;
use crate::codec::{commitment_digest, hash_commitment, Direction};
use crate::error::ErrorCode;
use crate::lifecycle::{initialize_market, lock_market, new_market};
use crate::invariants::{
    lemma_commit_consistent,
    lemma_create_market_consistent,
    lemma_lock_consistent,
    lemma_market_index,
    lemma_position_index,
    lemma_reveal_consistent,
};
use crate::model::{has_market, has_position, market_at, position_at, ExchangeView, Operation};
use crate::protocol::{commit_bet, committed_position, reveal_with_digest};
use crate::records::{same_address, Address, AssetType, Event, Market, UserPosition};

verus! {

/// All markets and all positions of an exchange, and its audit log.
#[derive(Debug)]
pub struct Exchange {
    markets: Vec<Market>,
    positions: Vec<UserPosition>,
    events: Vec<Event>,
}

impl View for Exchange {
    type V = ExchangeView;

    closed spec fn view(&self) -> ExchangeView {
        ExchangeView { markets: self.markets@, positions: self.positions@, events: self.events@ }
    }
}

impl Exchange {
    /// Whether the exchange is in a state that its operations can reach.
    pub open spec fn wf(&self) -> bool {
        self@.consistent()
    }

    /// Makes an exchange without markets, positions and events.
    pub fn new() -> (exchange: Exchange)
        ensures
            exchange@ == ExchangeView::empty(),
            exchange.wf(),
    {
        let exchange = Exchange { markets: Vec::new(), positions: Vec::new(), events: Vec::new() };
        assert(exchange@.markets =~= Seq::<Market>::empty());
        assert(exchange@.positions =~= Seq::<UserPosition>::empty());
        assert(exchange@.events =~= Seq::<Event>::empty());
        exchange
    }

    /// Finds the index of the market with the id `market_id`.
    fn find_market(&self, market_id: u64) -> (found: Option<usize>)
        ensures
            match found {
                Some(i) => market_at(self@.markets, market_id, i as int),
                None => !has_market(self@.markets, market_id),
            },
    {
        let mut i: usize = 0;
        while i < self.markets.len()
            invariant
                i <= self.markets@.len(),
                forall|k: int| 0 <= k < i ==> !market_at(self.markets@, market_id, k),
            decreases self.markets@.len() - i,
        {
            if self.markets[i].market_id == market_id {
                return Some(i);
            }
            i += 1;
        }
        None
    }

    /// Finds the index of the position of `user` in the market `market_id`.
    fn find_position(&self, user: &Address, market_id: u64) -> (found: Option<usize>)
        ensures
            match found {
                Some(i) => position_at(self@.positions, *user, market_id, i as int),
                None => !has_position(self@.positions, *user, market_id),
            },
    {
        let mut i: usize = 0;
        while i < self.positions.len()
            invariant
                i <= self.positions@.len(),
                forall|k: int| 0 <= k < i ==> !position_at(self.positions@, *user, market_id, k),
            decreases self.positions@.len() - i,
        {
            if self.positions[i].market == market_id && same_address(
                &self.positions[i].user,
                user,
            ) {
                return Some(i);
            }
            i += 1;
        }
        None
    }

    /// The number of markets.
    pub fn market_count(&self) -> (count: usize)
        ensures
            count == self@.markets.len(),
    {
        self.markets.len()
    }

    /// The number of positions.
    pub fn position_count(&self) -> (count: usize)
        ensures
            count == self@.positions.len(),
    {
        self.positions.len()
    }

    /// The audit log: one event for each accepted request, oldest first.
    pub fn events(&self) -> (log: &Vec<Event>)
        ensures
            log@ == self@.events,
    {
        &self.events
    }

    /// Looks up the market with the id `market_id`.
    pub fn market(&self, market_id: u64) -> (found: Option<Market>)
        requires
            self.wf(),
        ensures
            found == if has_market(self@.markets, market_id) {
                Some(self@.market(market_id))
            } else {
                None
            },
    {
        match self.find_market(market_id) {
            Some(i) => {
                proof {
                    lemma_market_index(self@.markets, market_id, i as int);
                }
                Some(self.markets[i])
            },
            None => None,
        }
    }

    /// Looks up the position of `user` in the market `market_id`.
    pub fn position(&self, user: Address, market_id: u64) -> (found: Option<UserPosition>)
        requires
            self.wf(),
        ensures
            found == if has_position(self@.positions, user, market_id) {
                Some(self@.position(user, market_id))
            } else {
                None
            },
    {
        match self.find_position(&user, market_id) {
            Some(i) => {
                proof {
                    lemma_position_index(self@.positions, user, market_id, i as int);
                }
                Some(self.positions[i])
            },
            None => None,
        }
    }

    /// Creates a market for `authority` under the id `market_id`.
    ///
    /// Fails with `DuplicateMarket` if the id is taken, else with
    /// `InvalidResolutionTime` if the resolution time is not after `now`.
    /// Otherwise the market is added, open and without stakes, and its
    /// creation is noted in the audit log.
    pub fn create_market(
        &mut self,
        authority: Address,
        market_id: u64,
        asset_type: AssetType,
        resolution_time: i64,
        pyth_feed_account: Address,
        threshold_price: i64,
        now: i64,
    ) -> (res: Result<(), ErrorCode>)
        requires
            old(self).wf(),
        ensures
            final(self).wf(),
            final(self)@.follows(old(self)@),
            final(self)@ == old(self)@.apply(
                Operation::CreateMarket {
                    authority,
                    market_id,
                    asset_type,
                    resolution_time,
                    pyth_feed_account,
                    threshold_price,
                    now,
                },
            ),
            match res {
                Ok(_) => {
                    &&& old(self)@.create_rejection(market_id, resolution_time, now) is None
                    &&& final(self)@ == old(self)@.with_market(
                        new_market(
                            authority,
                            market_id,
                            asset_type,
                            resolution_time,
                            pyth_feed_account,
                            threshold_price,
                            now,
                        ),
                    )
                },
                Err(e) => {
                    &&& old(self)@.create_rejection(market_id, resolution_time, now) == Some(e)
                    &&& final(self)@ == old(self)@
                },
            },
    {
        if self.find_market(market_id).is_some() {
            return Err(ErrorCode::DuplicateMarket);
        }
        match initialize_market(
            authority,
            market_id,
            asset_type,
            resolution_time,
            pyth_feed_account,
            threshold_price,
            now,
        ) {
            Ok((market, event)) => {
                proof {
                    lemma_create_market_consistent(self@, market);
                }
                self.markets.push(market);
                self.events.push(Event::MarketCreated(event));
                Ok(())
            },
            Err(e) => Err(e),
        }
    }

    /// Commits a stake of `user` to the market `market_id` under a
    /// commitment digest.
    ///
    /// Fails with `MarketNotFound` if there is no such market, else with
    /// `DuplicateCommitment` if the user holds a position in it, else with
    /// `MarketNotOpen`, `MarketLocked`, `StakeTooLow` or `StakeTooHigh` as
    /// the market refuses. Otherwise the position is added, unrevealed, and
    /// the commitment is noted in the audit log.
    pub fn commit_bet(
        &mut self,
        user: Address,
        market_id: u64,
        stake_amount: u64,
        commitment_hash: [u8; 32],
        now: i64,
    ) -> (res: Result<(), ErrorCode>)
        requires
            old(self).wf(),
        ensures
            final(self).wf(),
            final(self)@.follows(old(self)@),
            final(self)@ == old(self)@.apply(
                Operation::CommitBet { user, market_id, stake_amount, commitment_hash, now },
            ),
            match res {
                Ok(_) => {
                    &&& old(self)@.commit_rejection(user, market_id, stake_amount, now) is None
                    &&& final(self)@ == old(self)@.with_position(
                        committed_position(
                            old(self)@.market(market_id),
                            user,
                            stake_amount,
                            commitment_hash,
                            now,
                        ),
                    )
                },
                Err(e) => {
                    &&& old(self)@.commit_rejection(user, market_id, stake_amount, now) == Some(e)
                    &&& final(self)@ == old(self)@
                },
            },
    {
        let mi = match self.find_market(market_id) {
            Some(i) => i,
            None => {
                return Err(ErrorCode::MarketNotFound);
            },
        };
        proof {
            lemma_market_index(self@.markets, market_id, mi as int);
        }
        if self.find_position(&user, market_id).is_some() {
            return Err(ErrorCode::DuplicateCommitment);
        }
        match commit_bet(&self.markets[mi], user, stake_amount, commitment_hash, now) {
            Ok((position, event)) => {
                proof {
                    lemma_commit_consistent(self@, position);
                }
                self.positions.push(position);
                self.events.push(Event::BetCommitted(event));
                Ok(())
            },
            Err(e) => Err(e),
        }
    }

    /// Reveals the position of `user` in the market `market_id` as
    /// `direction`, given the commitment digest that was recomputed from
    /// the revealed values.
    ///
    /// Fails with `MarketNotFound` if there is no such market, else with
    /// `PositionNotFound` if the user holds no position in it, else as the
    /// reveal is refused. Otherwise the position is marked revealed, its
    /// stake is added to the market's total of that side, and the reveal is
    /// noted in the audit log.
    pub fn reveal_with_digest(
        &mut self,
        user: Address,
        market_id: u64,
        direction: Direction,
        digest: &[u8; 32],
        now: i64,
    ) -> (res: Result<(), ErrorCode>)
        requires
            old(self).wf(),
        ensures
            final(self).wf(),
            final(self)@.follows(old(self)@),
            final(self)@ == old(self)@.apply(
                Operation::RevealBet { user, market_id, direction, digest: digest@, now },
            ),
            match res {
                Ok(_) => {
                    &&& old(self)@.reveal_rejection(user, market_id, direction, digest@, now) is None
                    &&& final(self)@ == old(self)@.revealed(user, market_id, direction)
                },
                Err(e) => {
                    &&& old(self)@.reveal_rejection(user, market_id, direction, digest@, now)
                        == Some(e)
                    &&& final(self)@ == old(self)@
                },
            },
    {
        let mi = match self.find_market(market_id) {
            Some(i) => i,
            None => {
                return Err(ErrorCode::MarketNotFound);
            },
        };
        let pi = match self.find_position(&user, market_id) {
            Some(i) => i,
            None => {
                return Err(ErrorCode::PositionNotFound);
            },
        };
        proof {
            lemma_market_index(self@.markets, market_id, mi as int);
            lemma_position_index(self@.positions, user, market_id, pi as int);
        }
        let mut market = self.markets[mi];
        let mut position = self.positions[pi];
        match reveal_with_digest(&mut market, &mut position, direction, digest, now) {
            Ok(event) => {
                proof {
                    lemma_reveal_consistent(self@, user, market_id, direction, digest@, now);
                }
                self.markets[mi] = market;
                self.positions[pi] = position;
                self.events.push(Event::BetRevealed(event));
                Ok(())
            },
            Err(e) => Err(e),
        }
    }

    /// Reveals the position of `user` in the market `market_id` as
    /// `direction` with the participant's nonce.
    ///
    /// The commitment is recomputed from `direction`, `nonce` and the
    /// position's commit time, and must equal the stored one exactly.
    pub fn reveal_bet(
        &mut self,
        user: Address,
        market_id: u64,
        direction: Direction,
        nonce: &str,
        now: i64,
    ) -> (res: Result<(), ErrorCode>)
        requires
            old(self).wf(),
        ensures
            final(self).wf(),
            final(self)@.follows(old(self)@),
            final(self)@ == old(self)@.apply(
                Operation::RevealBet {
                    user,
                    market_id,
                    direction,
                    digest: commitment_digest(
                        direction,
                        nonce@,
                        old(self)@.position(user, market_id).committed_at,
                    ),
                    now,
                },
            ),
            match res {
                Ok(_) => {
                    &&& old(self)@.reveal_rejection(
                        user,
                        market_id,
                        direction,
                        commitment_digest(
                            direction,
                            nonce@,
                            old(self)@.position(user, market_id).committed_at,
                        ),
                        now,
                    ) is None
                    &&& final(self)@ == old(self)@.revealed(user, market_id, direction)
                },
                Err(e) => {
                    &&& old(self)@.reveal_rejection(
                        user,
                        market_id,
                        direction,
                        commitment_digest(
                            direction,
                            nonce@,
                            old(self)@.position(user, market_id).committed_at,
                        ),
                        now,
                    ) == Some(e)
                    &&& final(self)@ == old(self)@
                },
            },
    {
        if self.find_market(market_id).is_none() {
            return Err(ErrorCode::MarketNotFound);
        }
        let committed_at = match self.find_position(&user, market_id) {
            Some(i) => {
                proof {
                    lemma_position_index(self@.positions, user, market_id, i as int);
                }
                self.positions[i].committed_at
            },
            None => {
                return Err(ErrorCode::PositionNotFound);
            },
        };
        let digest = hash_commitment(&direction, nonce, committed_at);
        self.reveal_with_digest(user, market_id, direction, &digest, now)
    }

    /// Locks the market `market_id`. Anyone may call this.
    ///
    /// Fails with `MarketNotFound` if there is no such market, else with
    /// `MarketNotOpen` or `LockTimeNotReached` as the market refuses.
    /// Otherwise the market is locked and that is noted in the audit log.
    pub fn lock_market(&mut self, market_id: u64, now: i64) -> (res: Result<(), ErrorCode>)
        requires
            old(self).wf(),
        ensures
            final(self).wf(),
            final(self)@.follows(old(self)@),
            final(self)@ == old(self)@.apply(Operation::LockMarket { market_id, now }),
            match res {
                Ok(_) => {
                    &&& old(self)@.lock_rejection(market_id, now) is None
                    &&& final(self)@ == old(self)@.locked(market_id, now)
                },
                Err(e) => {
                    &&& old(self)@.lock_rejection(market_id, now) == Some(e)
                    &&& final(self)@ == old(self)@
                },
            },
    {
        let mi = match self.find_market(market_id) {
            Some(i) => i,
            None => {
                return Err(ErrorCode::MarketNotFound);
            },
        };
        proof {
            lemma_market_index(self@.markets, market_id, mi as int);
        }
        let mut market = self.markets[mi];
        match lock_market(&mut market, now) {
            Ok(event) => {
                proof {
                    lemma_lock_consistent(self@, market_id, now);
                }
                self.markets[mi] = market;
                self.events.push(Event::MarketLocked(event));
                Ok(())
            },
            Err(e) => Err(e),
        }
    }
}

} // verus!
