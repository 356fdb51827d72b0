//! The reasons for which an operation on a market is refused.

use vstd::prelude::*;

verus! {

/// Why an operation was refused. Every refusal leaves all records as they were.
#[derive(Clone, Copy, Debug, PartialEq, Eq, Structural)]
pub enum ErrorCode {
    /// The resolution time of a new market is not in the future.
    InvalidResolutionTime,
    /// The market does not accept bets because it is not open.
    MarketNotOpen,
    /// The market is too close to its resolution to accept a new bet.
    MarketLocked,
    /// The stake is below the minimum.
    StakeTooLow,
    /// The stake is above the maximum.
    StakeTooHigh,
    /// A reveal was tried on a market that is not locked.
    MarketNotLocked,
    /// A reveal was tried outside the reveal window.
    RevealWindowClosed,
    /// The position has been revealed before.
    AlreadyRevealed,
    /// The revealed direction and nonce do not reproduce the commitment.
    InvalidCommitment,
    /// The market cannot be locked yet.
    LockTimeNotReached,
    /// A stake total would exceed what its accumulator can hold.
    MathOverflow,
    /// The participant already holds a position in the market.
    DuplicateCommitment,
    /// The participant holds no position in the market.
    PositionNotFound,
    /// No market has the given id.
    MarketNotFound,
    /// A market with the given id exists already.
    DuplicateMarket,
}

impl ErrorCode {
    /// The words in which a refusal is reported.
    pub open spec fn message_text(self) -> Seq<char> {
        match self {
            ErrorCode::InvalidResolutionTime => "Resolution time must be in the future"@,
            ErrorCode::MarketNotOpen => "Market is not open for betting"@,
            ErrorCode::MarketLocked => "Market is locked, no new bets allowed"@,
            ErrorCode::StakeTooLow => "Stake amount is too low (minimum 0.01 SOL)"@,
            ErrorCode::StakeTooHigh => "Stake amount is too high (maximum 100 SOL)"@,
            ErrorCode::MarketNotLocked => "Market is not locked yet"@,
            ErrorCode::RevealWindowClosed => "Reveal window is closed"@,
            ErrorCode::AlreadyRevealed => "Bet already revealed"@,
            ErrorCode::InvalidCommitment => "Invalid commitment hash"@,
            ErrorCode::LockTimeNotReached => "Lock time has not been reached"@,
            ErrorCode::MathOverflow => "Math overflow"@,
            ErrorCode::DuplicateCommitment => "A bet is already committed in this market"@,
            ErrorCode::PositionNotFound => "No bet is committed in this market"@,
            ErrorCode::MarketNotFound => "Market does not exist"@,
            ErrorCode::DuplicateMarket => "Market id is already in use"@,
        }
    }

    /// Gives the words in which this refusal is reported.
    pub fn message(&self) -> (text: &'static str)
        ensures
            text@ == self.message_text(),
    {
        match self {
            ErrorCode::InvalidResolutionTime => "Resolution time must be in the future",
            ErrorCode::MarketNotOpen => "Market is not open for betting",
            ErrorCode::MarketLocked => "Market is locked, no new bets allowed",
            ErrorCode::StakeTooLow => "Stake amount is too low (minimum 0.01 SOL)",
            ErrorCode::StakeTooHigh => "Stake amount is too high (maximum 100 SOL)",
            ErrorCode::MarketNotLocked => "Market is not locked yet",
            ErrorCode::RevealWindowClosed => "Reveal window is closed",
            ErrorCode::AlreadyRevealed => "Bet already revealed",
            ErrorCode::InvalidCommitment => "Invalid commitment hash",
            ErrorCode::LockTimeNotReached => "Lock time has not been reached",
            ErrorCode::MathOverflow => "Math overflow",
            ErrorCode::DuplicateCommitment => "A bet is already committed in this market",
            ErrorCode::PositionNotFound => "No bet is committed in this market",
            ErrorCode::MarketNotFound => "Market does not exist",
            ErrorCode::DuplicateMarket => "Market id is already in use",
        }
    }
}

} // verus!
