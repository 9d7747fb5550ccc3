//! Paying out a vote that backed the winner.

use crate::accounts::{ClaimWinnings, TransferRequest};
use crate::error::AmmError;
use crate::events::WinningsClaimed;
use crate::pubkey::Pubkey;
use crate::state::{Poll, PollView, Vote};
use vstd::prelude::*;

verus! {

/// Whether a vote backed the outcome that won.
pub open spec fn voted_for_winner(poll: PollView, vote: Vote) -> bool {
    poll.winning_nft matches Some(w) && ((vote.voted_for_nft == 1 && w == poll.nft1) || (
    vote.voted_for_nft == 2 && w == poll.nft2))
}

/// Why a claim is turned down, if it is: the conditions on its surroundings come
/// first, then whether the vote was paid out before, then whether a winner
/// is recorded and the vote backed it.
pub open spec fn claim_error(poll: PollView, ctx: ClaimWinnings, vote: Vote) -> Option<AmmError> {
    if ctx.constraint_error(poll, vote) is Some {
        ctx.constraint_error(poll, vote)
    } else if vote.claimed {
        Some(AmmError::AlreadyClaimed)
    } else if poll.winning_nft is None {
        Some(AmmError::PollNotResolved)
    } else if !voted_for_winner(poll, vote) {
        Some(AmmError::NotWinner)
    } else {
        None
    }
}

/// The vote after it was paid out.
pub open spec fn claimed(vote: Vote) -> Vote {
    Vote { claimed: true, ..vote }
}

/// The vote that a call of `claim_winnings` leaves, accepted or not.
pub open spec fn settled(poll: PollView, ctx: ClaimWinnings, vote: Vote) -> Vote {
    if claim_error(poll, ctx, vote) is None {
        claimed(vote)
    } else {
        vote
    }
}

/// Pays out a vote on a resolved poll to the user who placed it.
///
/// The vote must be the caller's, on this poll, not paid out before, and on the
/// outcome that won. What is paid are the shares that the vote bought, from the
/// pool vault, on the authority of the poll's own signing identity. A vote is
/// marked as paid only here, so that a second claim on it is turned down and asks
/// for no transfer.
pub fn claim_winnings(ctx: &ClaimWinnings, poll: &Poll, vote: &mut Vote) -> (r: Result<
    (TransferRequest, WinningsClaimed),
    AmmError,
>)
    ensures
        match r {
            Ok((payout, event)) => {
                &&& claim_error(poll@, *ctx, *old(vote)) is None
                &&& *final(vote) == claimed(*old(vote))
                &&& payout.from == ctx.pool_vault.key
                &&& payout.to == ctx.user_token_account.key
                &&& payout.authority == ctx.pool_authority
                &&& payout.amount == old(vote).amount
                &&& event.poll == ctx.poll
                &&& event.user == ctx.user
                &&& event.amount == old(vote).amount
            },
            Err(e) => {
                &&& claim_error(poll@, *ctx, *old(vote)) == Some(e)
                &&& *final(vote) == *old(vote)
            },
        },
        *final(vote) == settled(poll@, *ctx, *old(vote)),
{
    match ctx.validate(poll, vote) {
        Err(e) => {
            return Err(e);
        },
        Ok(_) => {},
    }
    if vote.claimed {
        return Err(AmmError::AlreadyClaimed);
    }
    let winning_nft: Pubkey = match poll.winning_nft {
        Some(w) => w,
        None => {
            return Err(AmmError::PollNotResolved);
        },
    };
    let won: bool = (vote.voted_for_nft == 1 && winning_nft == poll.nft1) || (vote.voted_for_nft
        == 2 && winning_nft == poll.nft2);
    if !won {
        return Err(AmmError::NotWinner);
    }
    let payout_amount: u64 = vote.amount;
    vote.claimed = true;
    Ok(
        (
            TransferRequest {
                from: ctx.pool_vault.key,
                to: ctx.user_token_account.key,
                authority: ctx.pool_authority,
                amount: payout_amount,
            },
            WinningsClaimed { poll: ctx.poll, user: ctx.user, amount: payout_amount },
        ),
    )
}

} // verus!
