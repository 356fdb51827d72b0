//! The records that the market core keeps, and the events that it reports.

use vstd::prelude::*;
use crate::codec::{digests_equal, Direction};

verus! {

/// A 32-byte identity: a participant, an authority or a price feed.
pub type Address = [u8; 32];

/// Where a market stands in its life.
#[derive(Clone, Copy, Debug, PartialEq, Eq, Structural)]
pub enum MarketStatus {
    /// Bets can be committed.
    Open,
    /// No new bets; committed bets can be revealed.
    Locked,
    /// The settlement price is fixed.
    Resolved,
    /// The market was called off.
    Cancelled,
}

/// The asset whose price a market is about.
#[derive(Clone, Copy, Debug, PartialEq, Eq, Structural)]
pub enum AssetType {
    BTC,
    ETH,
    SOL,
    BNB,
}

/// One resolvable proposition: will the asset's price be above the
/// threshold at the resolution time?
#[derive(Clone, Copy, Debug, PartialEq, Eq)]
pub struct Market {
    /// The identity that created the market.
    pub authority: Address,
    /// The id that the creator chose.
    pub market_id: u64,
    pub asset_type: AssetType,
    /// When the proposition is decided, in seconds since the Unix epoch.
    pub resolution_time: i64,
    /// The price feed that will furnish the settlement price.
    pub pyth_feed_account: Address,
    pub threshold_price: i64,
    /// The sum of the revealed stakes that back `Long`.
    pub total_long_stake: u64,
    /// The sum of the revealed stakes that back `Short`.
    pub total_short_stake: u64,
    pub status: MarketStatus,
    /// Absent until the market is resolved.
    pub settlement_price: Option<i64>,
    pub created_at: i64,
}

/// One participant's single stake in one market.
#[derive(Clone, Copy, Debug, PartialEq, Eq)]
pub struct UserPosition {
    pub user: Address,
    /// The id of the market that the stake is in.
    pub market: u64,
    pub stake_amount: u64,
    /// The commitment that hides the direction until the reveal.
    pub commitment_hash: [u8; 32],
    /// Absent until revealed.
    pub direction: Option<Direction>,
    pub revealed: bool,
    pub claimed: bool,
    /// The time of the commit, which is part of the commitment.
    pub committed_at: i64,
}

/// Reported when a market is created.
#[derive(Clone, Copy, Debug, PartialEq, Eq)]
pub struct MarketCreated {
    pub market_id: u64,
    pub authority: Address,
    pub asset_type: AssetType,
    pub resolution_time: i64,
    pub threshold_price: i64,
}

/// Reported when a bet is committed.
#[derive(Clone, Copy, Debug, PartialEq, Eq)]
pub struct BetCommitted {
    pub user: Address,
    pub market: u64,
    pub stake_amount: u64,
    pub commitment_hash: [u8; 32],
}

/// Reported when a bet is revealed.
#[derive(Clone, Copy, Debug, PartialEq, Eq)]
pub struct BetRevealed {
    pub user: Address,
    pub market: u64,
    pub direction: Direction,
    pub stake_amount: u64,
}

/// Reported when a market is locked.
#[derive(Clone, Copy, Debug, PartialEq, Eq)]
pub struct MarketLocked {
    pub market_id: u64,
    pub lock_time: i64,
}

/// One entry of an exchange's audit log.
#[derive(Clone, Copy, Debug, PartialEq, Eq)]
pub enum Event {
    MarketCreated(MarketCreated),
    BetCommitted(BetCommitted),
    BetRevealed(BetRevealed),
    MarketLocked(MarketLocked),
}

/// Compares two identities byte by byte.
pub fn same_address(a: &Address, b: &Address) -> (same: bool)
    ensures
        same == (*a == *b),
{
    digests_equal(a, b)
}

} // verus!
