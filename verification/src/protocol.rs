//! Commit-reveal protocol: committing a hidden bet and revealing it.
//!
//! A participant commits a stake together with the digest of a direction,
//! a secret nonce and the commit time. Once the market is locked, the
//! participant reveals direction and nonce; the stake is counted on that
//! side only if they reproduce the digest. Each operation either takes full
//! effect or changes nothing.

use vstd::prelude::*;
use crate::codec::{
    commitment_digest,
    commitment_matches,
    commitment_preimage,
    digests_equal,
    hash_commitment,
    lemma_preimage_injective,
    sha256,
    Direction,
};
use crate::error::ErrorCode;
use crate::ledger::{credit_stake, side_total, with_stake};
use crate::lifecycle::{
    in_reveal_window,
    lock_time,
    lock_time_reached,
    market_step,
    reveal_window_open,
    LOCK_WINDOW,
};
use crate::records::{Address, BetCommitted, BetRevealed, Market, MarketStatus, UserPosition};

verus! {

/// The smallest stake that can be committed: a hundredth of a unit.
pub const MIN_STAKE: u64 = 10_000_000;

/// The largest stake that can be committed: a hundred units.
pub const MAX_STAKE: u64 = 100_000_000_000;

/// Why a stake cannot be committed to a market at `now`, if anything stands
/// in the way. The market's status is looked at first, then the time, then
/// the lower and the upper bound of the stake.
pub open spec fn commit_rejection(market: Market, stake_amount: u64, now: i64) -> Option<
    ErrorCode,
> {
    if market.status != MarketStatus::Open {
        Some(ErrorCode::MarketNotOpen)
    } else if now >= lock_time(market.resolution_time) {
        Some(ErrorCode::MarketLocked)
    } else if stake_amount < MIN_STAKE {
        Some(ErrorCode::StakeTooLow)
    } else if stake_amount > MAX_STAKE {
        Some(ErrorCode::StakeTooHigh)
    } else {
        None
    }
}

/// The position that a successful commit creates.
pub open spec fn committed_position(
    market: Market,
    user: Address,
    stake_amount: u64,
    commitment_hash: [u8; 32],
    now: i64,
) -> UserPosition {
    UserPosition {
        user,
        market: market.market_id,
        stake_amount,
        commitment_hash,
        direction: None,
        revealed: false,
        claimed: false,
        committed_at: now,
    }
}

/// Why a position cannot be revealed as `direction` at `now`, if anything
/// stands in the way; `digest` is the commitment recomputed from what the
/// participant revealed. The market's status is looked at first, then the
/// time, then whether the position was revealed before, then the digest,
/// and last whether the side's total can take the stake.
pub open spec fn reveal_rejection(
    market: Market,
    position: UserPosition,
    direction: Direction,
    digest: Seq<u8>,
    now: i64,
) -> Option<ErrorCode> {
    if market.status != MarketStatus::Locked {
        Some(ErrorCode::MarketNotLocked)
    } else if !in_reveal_window(market.resolution_time, now) {
        Some(ErrorCode::RevealWindowClosed)
    } else if position.revealed {
        Some(ErrorCode::AlreadyRevealed)
    } else if position.commitment_hash@ != digest {
        Some(ErrorCode::InvalidCommitment)
    } else if side_total(market, direction) + position.stake_amount > u64::MAX {
        Some(ErrorCode::MathOverflow)
    } else {
        None
    }
}

/// The position after it has been revealed as `direction`.
pub open spec fn revealed_position(position: UserPosition, direction: Direction) -> UserPosition {
    UserPosition { direction: Some(direction), revealed: true, ..position }
}

/// How a position record may differ from an earlier state of itself: owner,
/// market, stake, commitment and commit time are fixed; once revealed it
/// stays revealed, with the same direction.
pub open spec fn position_step(before: UserPosition, after: UserPosition) -> bool {
    &&& after.user == before.user
    &&& after.market == before.market
    &&& after.stake_amount == before.stake_amount
    &&& after.commitment_hash == before.commitment_hash
    &&& after.committed_at == before.committed_at
    &&& before.revealed ==> after.revealed && after.direction == before.direction
}

/// Commits a stake of `user` to `market` under a commitment digest.
///
/// Fails with `MarketNotOpen`, `MarketLocked`, `StakeTooLow` or
/// `StakeTooHigh` as [`commit_rejection`] says; otherwise returns the new
/// position, unrevealed and unclaimed, with `now` as its commit time.
/// Whether the participant already holds a position in the market is for
/// the keeper of the records to check.
pub fn commit_bet(
    market: &Market,
    user: Address,
    stake_amount: u64,
    commitment_hash: [u8; 32],
    now: i64,
) -> (res: Result<(UserPosition, BetCommitted), ErrorCode>)
    ensures
        match res {
            Ok((position, event)) => {
                &&& commit_rejection(*market, stake_amount, now) is None
                &&& position == committed_position(
                    *market,
                    user,
                    stake_amount,
                    commitment_hash,
                    now,
                )
                &&& event == (BetCommitted {
                    user,
                    market: market.market_id,
                    stake_amount,
                    commitment_hash,
                })
            },
            Err(e) => commit_rejection(*market, stake_amount, now) == Some(e),
        },
{
    if market.status != MarketStatus::Open {
        return Err(ErrorCode::MarketNotOpen);
    }
    if lock_time_reached(market.resolution_time, now) {
        return Err(ErrorCode::MarketLocked);
    }
    if stake_amount < MIN_STAKE {
        return Err(ErrorCode::StakeTooLow);
    }
    if stake_amount > MAX_STAKE {
        return Err(ErrorCode::StakeTooHigh);
    }
    let position = UserPosition {
        user,
        market: market.market_id,
        stake_amount,
        commitment_hash,
        direction: None,
        revealed: false,
        claimed: false,
        committed_at: now,
    };
    let event = BetCommitted { user, market: market.market_id, stake_amount, commitment_hash };
    Ok((position, event))
}

/// Reveals a position as `direction`, given the commitment digest that was
/// recomputed from the revealed values.
///
/// Fails as [`reveal_rejection`] says, leaving both records as they were.
/// Otherwise the position is marked revealed with that direction and its
/// stake is added to the total of that side. That the position is one of
/// this market, and belongs to whoever reveals it, is for the keeper of the
/// records to see to.
pub fn reveal_with_digest(
    market: &mut Market,
    position: &mut UserPosition,
    direction: Direction,
    digest: &[u8; 32],
    now: i64,
) -> (res: Result<BetRevealed, ErrorCode>)
    ensures
        match res {
            Ok(event) => {
                &&& reveal_rejection(*old(market), *old(position), direction, digest@, now) is None
                &&& *final(market) == with_stake(
                    *old(market),
                    direction,
                    old(position).stake_amount,
                )
                &&& *final(position) == revealed_position(*old(position), direction)
                &&& event == (BetRevealed {
                    user: old(position).user,
                    market: old(position).market,
                    direction,
                    stake_amount: old(position).stake_amount,
                })
            },
            Err(e) => {
                &&& reveal_rejection(*old(market), *old(position), direction, digest@, now) == Some(
                    e,
                )
                &&& *final(market) == *old(market)
                &&& *final(position) == *old(position)
            },
        },
        market_step(*old(market), *final(market)),
        position_step(*old(position), *final(position)),
{
    if market.status != MarketStatus::Locked {
        return Err(ErrorCode::MarketNotLocked);
    }
    if !reveal_window_open(market.resolution_time, now) {
        return Err(ErrorCode::RevealWindowClosed);
    }
    if position.revealed {
        return Err(ErrorCode::AlreadyRevealed);
    }
    if !digests_equal(&position.commitment_hash, digest) {
        return Err(ErrorCode::InvalidCommitment);
    }
    match credit_stake(market, direction, position.stake_amount) {
        Ok(_) => {},
        Err(e) => {
            return Err(e);
        },
    }
    position.direction = Some(direction);
    position.revealed = true;
    Ok(
        BetRevealed {
            user: position.user,
            market: position.market,
            direction,
            stake_amount: position.stake_amount,
        },
    )
}

/// Reveals a position as `direction` with the participant's nonce.
///
/// The commitment is recomputed from `direction`, `nonce` and the
/// position's commit time, and must equal the stored one exactly. Fails
/// with `MarketNotLocked`, `RevealWindowClosed`, `AlreadyRevealed`,
/// `InvalidCommitment` or `MathOverflow` as [`reveal_rejection`] says,
/// leaving both records as they were.
pub fn reveal_bet(
    market: &mut Market,
    position: &mut UserPosition,
    direction: Direction,
    nonce: &str,
    now: i64,
) -> (res: Result<BetRevealed, ErrorCode>)
    ensures
        match res {
            Ok(event) => {
                &&& reveal_rejection(
                    *old(market),
                    *old(position),
                    direction,
                    commitment_digest(direction, nonce@, old(position).committed_at),
                    now,
                ) is None
                &&& *final(market) == with_stake(
                    *old(market),
                    direction,
                    old(position).stake_amount,
                )
                &&& *final(position) == revealed_position(*old(position), direction)
                &&& event == (BetRevealed {
                    user: old(position).user,
                    market: old(position).market,
                    direction,
                    stake_amount: old(position).stake_amount,
                })
            },
            Err(e) => {
                &&& reveal_rejection(
                    *old(market),
                    *old(position),
                    direction,
                    commitment_digest(direction, nonce@, old(position).committed_at),
                    now,
                ) == Some(e)
                &&& *final(market) == *old(market)
                &&& *final(position) == *old(position)
            },
        },
        market_step(*old(market), *final(market)),
        position_step(*old(position), *final(position)),
{
    let digest = hash_commitment(&direction, nonce, position.committed_at);
    reveal_with_digest(market, position, direction, &digest, now)
}

/// A reveal is accepted only if the revealed direction and nonce reproduce
/// the stored commitment exactly. Where they do not, and the market is
/// locked, the time is in the window and the position is unrevealed, the
/// reveal is refused with `InvalidCommitment`.
pub proof fn lemma_reveal_sound(
    market: Market,
    position: UserPosition,
    direction: Direction,
    nonce: Seq<char>,
    now: i64,
)
    ensures
        reveal_rejection(
            market,
            position,
            direction,
            commitment_digest(direction, nonce, position.committed_at),
            now,
        ) is None ==> commitment_matches(
            position.commitment_hash@,
            direction,
            nonce,
            position.committed_at,
        ),
        market.status == MarketStatus::Locked && in_reveal_window(market.resolution_time, now)
            && !position.revealed && !commitment_matches(
            position.commitment_hash@,
            direction,
            nonce,
            position.committed_at,
        ) ==> reveal_rejection(
            market,
            position,
            direction,
            commitment_digest(direction, nonce, position.committed_at),
            now,
        ) == Some(ErrorCode::InvalidCommitment),
{
}

/// Revealing anything but what was committed means hashing other bytes:
/// a changed direction or nonce always changes the bytes that the digest is
/// taken of. Such a reveal, in time and on a locked market, is refused with
/// `InvalidCommitment` whenever the digests of the two byte sequences
/// differ.
pub proof fn lemma_altered_reveal_refused(
    market: Market,
    position: UserPosition,
    committed_direction: Direction,
    committed_nonce: Seq<char>,
    direction: Direction,
    nonce: Seq<char>,
    now: i64,
)
    requires
        commitment_matches(
            position.commitment_hash@,
            committed_direction,
            committed_nonce,
            position.committed_at,
        ),
        direction != committed_direction || nonce != committed_nonce,
        market.status == MarketStatus::Locked,
        in_reveal_window(market.resolution_time, now),
        !position.revealed,
    ensures
        commitment_preimage(direction, nonce, position.committed_at) != commitment_preimage(
            committed_direction,
            committed_nonce,
            position.committed_at,
        ),
        sha256(commitment_preimage(direction, nonce, position.committed_at)) != sha256(
            commitment_preimage(committed_direction, committed_nonce, position.committed_at),
        ) ==> reveal_rejection(
            market,
            position,
            direction,
            commitment_digest(direction, nonce, position.committed_at),
            now,
        ) == Some(ErrorCode::InvalidCommitment),
{
    if commitment_preimage(direction, nonce, position.committed_at) == commitment_preimage(
        committed_direction,
        committed_nonce,
        position.committed_at,
    ) {
        lemma_preimage_injective(
            direction,
            nonce,
            position.committed_at,
            committed_direction,
            committed_nonce,
            position.committed_at,
        );
    }
}

/// A position is revealed at most once: after an accepted reveal, every
/// further reveal of it is refused, whatever is revealed and whenever, and
/// within the reveal window the refusal is `AlreadyRevealed`. A refused
/// reveal changes nothing, so the stake is counted once.
pub proof fn lemma_reveal_latch(
    market: Market,
    position: UserPosition,
    first_direction: Direction,
    first_digest: Seq<u8>,
    first_now: i64,
    direction: Direction,
    digest: Seq<u8>,
    now: i64,
)
    requires
        reveal_rejection(market, position, first_direction, first_digest, first_now) is None,
    ensures
        reveal_rejection(
            with_stake(market, first_direction, position.stake_amount),
            revealed_position(position, first_direction),
            direction,
            digest,
            now,
        ) is Some,
        in_reveal_window(market.resolution_time, now) ==> reveal_rejection(
            with_stake(market, first_direction, position.stake_amount),
            revealed_position(position, first_direction),
            direction,
            digest,
            now,
        ) == Some(ErrorCode::AlreadyRevealed),
        side_total(with_stake(market, first_direction, position.stake_amount), first_direction)
            == side_total(market, first_direction) + position.stake_amount,
{
}

/// The commit window ends at the lock time: an open market takes a stake
/// within the bounds at every moment before its lock time, the last second
/// before it included, and refuses it with `MarketLocked` from the lock
/// time on.
pub proof fn lemma_commit_window(market: Market, stake_amount: u64, now: i64)
    requires
        market.status == MarketStatus::Open,
        MIN_STAKE <= stake_amount <= MAX_STAKE,
    ensures
        now < lock_time(market.resolution_time) ==> commit_rejection(market, stake_amount, now)
            is None,
        now == market.resolution_time - LOCK_WINDOW - 1 ==> commit_rejection(
            market,
            stake_amount,
            now,
        ) is None,
        now >= lock_time(market.resolution_time) ==> commit_rejection(market, stake_amount, now)
            == Some(ErrorCode::MarketLocked),
        now == market.resolution_time - LOCK_WINDOW ==> commit_rejection(
            market,
            stake_amount,
            now,
        ) == Some(ErrorCode::MarketLocked),
{
}

/// The reveal window runs from the lock time up to, but not including, the
/// resolution time: a matching reveal of an unrevealed position on a locked
/// market is accepted at the lock time and refused with
/// `RevealWindowClosed` at the resolution time, as at every moment outside
/// the window.
pub proof fn lemma_reveal_window(
    market: Market,
    position: UserPosition,
    direction: Direction,
    digest: Seq<u8>,
    now: i64,
)
    requires
        market.status == MarketStatus::Locked,
        !position.revealed,
        position.commitment_hash@ == digest,
        side_total(market, direction) + position.stake_amount <= u64::MAX,
    ensures
        in_reveal_window(market.resolution_time, now) ==> reveal_rejection(
            market,
            position,
            direction,
            digest,
            now,
        ) is None,
        now == market.resolution_time - LOCK_WINDOW ==> reveal_rejection(
            market,
            position,
            direction,
            digest,
            now,
        ) is None,
        !in_reveal_window(market.resolution_time, now) ==> reveal_rejection(
            market,
            position,
            direction,
            digest,
            now,
        ) == Some(ErrorCode::RevealWindowClosed),
        now == market.resolution_time ==> reveal_rejection(market, position, direction, digest, now)
            == Some(ErrorCode::RevealWindowClosed),
{
}

/// The stake bounds are inclusive: on an open market before its lock time
/// the smallest and the largest stake are taken, one less than the smallest
/// is refused with `StakeTooLow`, and one more than the largest with
/// `StakeTooHigh`; so is every stake below or above the bounds.
pub proof fn lemma_stake_bounds(market: Market, stake_amount: u64, now: i64)
    requires
        market.status == MarketStatus::Open,
        now < lock_time(market.resolution_time),
    ensures
        commit_rejection(market, MIN_STAKE, now) is None,
        commit_rejection(market, MAX_STAKE, now) is None,
        commit_rejection(market, (MIN_STAKE - 1) as u64, now) == Some(ErrorCode::StakeTooLow),
        commit_rejection(market, (MAX_STAKE + 1) as u64, now) == Some(ErrorCode::StakeTooHigh),
        stake_amount < MIN_STAKE ==> commit_rejection(market, stake_amount, now) == Some(
            ErrorCode::StakeTooLow,
        ),
        stake_amount > MAX_STAKE ==> commit_rejection(market, stake_amount, now) == Some(
            ErrorCode::StakeTooHigh,
        ),
        MIN_STAKE <= stake_amount <= MAX_STAKE ==> commit_rejection(market, stake_amount, now)
            is None,
{
}

} // verus!
