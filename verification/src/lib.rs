//! Settlement core of a binary prediction market with hidden bets.
//!
//! Participants stake on whether a price will be above or below a threshold
//! at a future time. A bet is first committed under a digest that hides its
//! direction, and revealed only after the market has stopped taking bets.
//!
//! - [`codec`]: the commitment digest and the bytes it is taken of.
//! - [`records`], [`error`]: the market and position records, events, errors.
//! - [`lifecycle`]: creating and locking a market, and the timing windows.
//! - [`protocol`]: committing and revealing a bet.
//! - [`ledger`]: the stake totals and what a resolved market pays.
//! - [`exchange`]: a keyed store of markets and positions with an audit log.
//! - [`model`], [`invariants`], [`payouts`]: the store's mathematical model,
//!   what holds of every state it can reach, and what a market pays in all.
//! - [`registry`]: betting limits, cooldowns and self-exclusion per identity.

pub mod codec;
pub mod error;
pub mod exchange;
pub mod invariants;
pub mod ledger;
pub mod lifecycle;
pub mod model;
pub mod payouts;
pub mod protocol;
pub mod records;
pub mod registry;

pub use codec::{hash_commitment, verify_commitment, Direction};
pub use error::ErrorCode;
pub use exchange::Exchange;
pub use ledger::{payout, settlement_amount, stake_totals};
pub use lifecycle::{initialize_market, lock_market, LOCK_WINDOW};
pub use protocol::{commit_bet, reveal_bet, reveal_with_digest, MAX_STAKE, MIN_STAKE};
pub use records::{
    Address, AssetType, BetCommitted, BetRevealed, Event, Market, MarketCreated, MarketLocked,
    MarketStatus, UserPosition,
};
