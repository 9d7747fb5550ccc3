//! The life of a poll: creation, votes, added liquidity, and the two ways in
//! which it ends.
//!
//! Each operation either fails, and then leaves the poll as it was, or succeeds,
//! and then returns what the caller has to carry out: the token transfers it asks
//! for and the event to report. The caller moves the tokens before it stores the
//! poll that the operation has left.

use crate::accounts::{
    AddLiquidity, CancelPoll, CreatePoll, ResolvePoll, TransferRequest, VoteOnPoll,
};
use crate::amm::{
    amount_after_fee, fee, fee_of, get_price, grow_reserves, liquidity_error, net_of, price_of,
    received, swap, swap_error, swapped_nft1, swapped_nft2,
};
use crate::authorization::{authorized, is_authorized};
use crate::error::AmmError;
use crate::events::{PollCanceledEvent, PollCreatedEvent, PollResolvedEvent};
use crate::pubkey::Pubkey;
use crate::state::{Poll, PollStatus, PollView, Vote, MAX_TITLE_LEN};
use vstd::prelude::*;

verus! {

/// What a vote hands back: the record of the stake and the two transfers that
/// pay for it, the one to the pool first.
#[derive(Clone, Copy, Debug, PartialEq, Eq)]
pub struct VoteReceipt {
    pub vote: Vote,
    pub pool_transfer: TransferRequest,
    pub fee_transfer: TransferRequest,
}

/// Why a vote is turned down, if it is: the conditions on its surroundings come
/// first, then the deadline, then what stands in the way of the swap.
pub open spec fn vote_error(
    poll: PollView,
    ctx: VoteOnPoll,
    nft_choice: u8,
    amount: nat,
    now: int,
) -> Option<AmmError> {
    if ctx.constraint_error(poll) is Some {
        ctx.constraint_error(poll)
    } else if now >= poll.closes_at {
        Some(AmmError::PollClosed)
    } else {
        swap_error(poll.nft1_shares, poll.nft2_shares, poll.k, nft_choice, amount)
    }
}

/// The poll after a vote that was accepted: the reserves have moved along the
/// curve, and nothing else has changed.
pub open spec fn after_vote(poll: PollView, nft_choice: u8, amount: nat) -> PollView {
    PollView {
        nft1_shares: swapped_nft1(poll.nft1_shares, poll.nft2_shares, poll.k, nft_choice, amount),
        nft2_shares: swapped_nft2(poll.nft1_shares, poll.nft2_shares, poll.k, nft_choice, amount),
        ..poll
    }
}

/// The poll that a call of `vote` leaves, accepted or not.
pub open spec fn voted(
    poll: PollView,
    ctx: VoteOnPoll,
    nft_choice: u8,
    amount: nat,
    now: int,
) -> PollView {
    if vote_error(poll, ctx, nft_choice, amount, now) is None {
        after_vote(poll, nft_choice, amount)
    } else {
        poll
    }
}

/// Places a stake of `amount` on the outcome `nft_choice` (1 or 2) at the time
/// `now`.
///
/// The poll must be active and `now` before its deadline. The stake less its fee
/// goes to the pool vault, the fee to the fee vault; the reserves move along the
/// curve; the record holds the shares bought, the stake, and the price of the
/// outcome at the new reserves. The product of the reserves never rises above
/// `k`, which a vote does not touch.
pub fn vote(ctx: &VoteOnPoll, poll: &mut Poll, nft_choice: u8, amount: u64, now: i64) -> (r: Result<
    VoteReceipt,
    AmmError,
>)
    ensures
        match r {
            Ok(receipt) => {
                &&& vote_error(old(poll)@, *ctx, nft_choice, amount as nat, now as int) is None
                &&& final(poll)@ == after_vote(old(poll)@, nft_choice, amount as nat)
                &&& receipt.vote.poll == ctx.poll
                &&& receipt.vote.user == ctx.user
                &&& receipt.vote.voted_for_nft == nft_choice
                &&& receipt.vote.amount == received(
                    old(poll)@.nft1_shares,
                    old(poll)@.nft2_shares,
                    old(poll)@.k,
                    nft_choice,
                    amount as nat,
                )
                &&& receipt.vote.value == amount
                &&& receipt.vote.price_at_transaction == price_of(
                    final(poll)@.nft1_shares,
                    final(poll)@.nft2_shares,
                    nft_choice,
                )
                &&& !receipt.vote.claimed
                &&& receipt.pool_transfer.from == ctx.user_token_account.key
                &&& receipt.pool_transfer.to == ctx.pool_vault.key
                &&& receipt.pool_transfer.authority == ctx.user
                &&& receipt.pool_transfer.amount == net_of(amount as nat)
                &&& receipt.fee_transfer.from == ctx.user_token_account.key
                &&& receipt.fee_transfer.to == ctx.fee_vault.key
                &&& receipt.fee_transfer.authority == ctx.user
                &&& receipt.fee_transfer.amount == fee_of(amount as nat)
                &&& final(poll)@.nft1_shares * final(poll)@.nft2_shares <= final(poll)@.k
            },
            Err(e) => {
                &&& vote_error(old(poll)@, *ctx, nft_choice, amount as nat, now as int) == Some(e)
                &&& *final(poll) == *old(poll)
            },
        },
        final(poll)@ == voted(old(poll)@, *ctx, nft_choice, amount as nat, now as int),
        old(poll)@.wf() ==> final(poll)@.wf(),
{
    match ctx.validate(poll) {
        Err(e) => {
            return Err(e);
        },
        Ok(_) => {},
    }
    if now >= poll.closes_at {
        return Err(AmmError::PollClosed);
    }
    let swapped = match swap(poll.nft1_shares, poll.nft2_shares, poll.k, nft_choice, amount) {
        Ok(s) => s,
        Err(e) => {
            return Err(e);
        },
    };
    poll.nft1_shares = swapped.nft1_shares;
    poll.nft2_shares = swapped.nft2_shares;
    let price: u64 = get_price(poll.nft1_shares, poll.nft2_shares, nft_choice);
    Ok(
        VoteReceipt {
            vote: Vote {
                poll: ctx.poll,
                user: ctx.user,
                voted_for_nft: nft_choice,
                amount: swapped.received,
                value: amount,
                price_at_transaction: price,
                claimed: false,
            },
            pool_transfer: TransferRequest {
                from: ctx.user_token_account.key,
                to: ctx.pool_vault.key,
                authority: ctx.user,
                amount: amount_after_fee(amount),
            },
            fee_transfer: TransferRequest {
                from: ctx.user_token_account.key,
                to: ctx.fee_vault.key,
                authority: ctx.user,
                amount: fee(amount),
            },
        },
    )
}

/// Why a poll cannot be created, if it cannot: the title is looked at first,
/// then the reserves, then whether their product has a value in 64 bits.
pub open spec fn create_error(
    title: Seq<u8>,
    initial_nft1_shares: nat,
    initial_nft2_shares: nat,
) -> Option<AmmError> {
    if title.len() > MAX_TITLE_LEN {
        Some(AmmError::TitleTooLong)
    } else if initial_nft1_shares == 0 || initial_nft2_shares == 0 {
        Some(AmmError::InvalidShares)
    } else if initial_nft1_shares * initial_nft2_shares > u64::MAX {
        Some(AmmError::ArithmeticOverflow)
    } else {
        None
    }
}

/// The poll as creation leaves it: active, with no winner, and with the product
/// of its reserves as `k`.
pub open spec fn created(
    ctx: CreatePoll,
    title: Seq<u8>,
    closes_at: int,
    nft1: Pubkey,
    nft2: Pubkey,
    initial_nft1_shares: nat,
    initial_nft2_shares: nat,
) -> PollView {
    PollView {
        authority: ctx.authority,
        title,
        closes_at,
        nft1,
        nft2,
        nft1_shares: initial_nft1_shares,
        nft2_shares: initial_nft2_shares,
        k: initial_nft1_shares * initial_nft2_shares,
        status: PollStatus::Active,
        winning_nft: None,
        token_mint: ctx.token_mint,
    }
}

/// Creates a poll between the outcomes `nft1` and `nft2` that closes at
/// `closes_at`.
///
/// The title may have 64 bytes at most and both reserves must be positive. The
/// caller becomes the poll's authority.
pub fn create_poll(
    ctx: &CreatePoll,
    title_bytes: Vec<u8>,
    closes_at: i64,
    nft1: Pubkey,
    nft2: Pubkey,
    initial_nft1_shares: u64,
    initial_nft2_shares: u64,
) -> (r: Result<(Poll, PollCreatedEvent), AmmError>)
    ensures
        match r {
            Ok((poll, event)) => {
                &&& create_error(
                    title_bytes@,
                    initial_nft1_shares as nat,
                    initial_nft2_shares as nat,
                ) is None
                &&& poll@ == created(
                    *ctx,
                    title_bytes@,
                    closes_at as int,
                    nft1,
                    nft2,
                    initial_nft1_shares as nat,
                    initial_nft2_shares as nat,
                )
                &&& poll@.wf()
                &&& event.poll == ctx.poll
                &&& event.authority == ctx.authority
                &&& event.nft1 == nft1
                &&& event.nft2 == nft2
                &&& event.closes_at == closes_at
            },
            Err(e) => create_error(
                title_bytes@,
                initial_nft1_shares as nat,
                initial_nft2_shares as nat,
            ) == Some(e),
        },
{
    if title_bytes.len() > MAX_TITLE_LEN {
        return Err(AmmError::TitleTooLong);
    }
    if initial_nft1_shares == 0 || initial_nft2_shares == 0 {
        return Err(AmmError::InvalidShares);
    }
    let k: u64 = match initial_nft1_shares.checked_mul(initial_nft2_shares) {
        Some(k) => k,
        None => {
            return Err(AmmError::ArithmeticOverflow);
        },
    };
    let poll = Poll {
        authority: ctx.authority,
        title: title_bytes,
        closes_at,
        nft1,
        nft2,
        nft1_shares: initial_nft1_shares,
        nft2_shares: initial_nft2_shares,
        k,
        status: PollStatus::Active,
        winning_nft: None,
        token_mint: ctx.token_mint,
    };
    let event = PollCreatedEvent {
        poll: ctx.poll,
        authority: ctx.authority,
        nft1,
        nft2,
        closes_at,
    };
    Ok((poll, event))
}

/// Why a poll cannot be resolved, if it cannot: the caller is looked at first,
/// then the poll's status, then the outcome named.
pub open spec fn resolve_error(poll: PollView, ctx: ResolvePoll, winning_nft: Pubkey) -> Option<
    AmmError,
> {
    if !authorized(poll.authority, ctx.authority, ctx.admin) {
        Some(AmmError::Unauthorized)
    } else if poll.status != PollStatus::Active && poll.status != PollStatus::Closed {
        Some(AmmError::PollNotActive)
    } else if winning_nft != poll.nft1 && winning_nft != poll.nft2 {
        Some(AmmError::InvalidNftChoice)
    } else {
        None
    }
}

/// The poll after it was resolved in favour of `winning_nft`.
pub open spec fn after_resolve(poll: PollView, winning_nft: Pubkey) -> PollView {
    PollView { status: PollStatus::Resolved, winning_nft: Some(winning_nft), ..poll }
}

/// The poll that a call of `resolve_poll` leaves, accepted or not.
pub open spec fn resolved(poll: PollView, ctx: ResolvePoll, winning_nft: Pubkey) -> PollView {
    if resolve_error(poll, ctx, winning_nft) is None {
        after_resolve(poll, winning_nft)
    } else {
        poll
    }
}

/// Resolves a poll in favour of `winning_nft`, one of its two outcomes.
///
/// Only the poll's authority, or the identity that the call names as admin, may
/// do so, and only while the poll is neither resolved nor canceled; the deadline
/// plays no part. A resolved poll stays resolved.
pub fn resolve_poll(ctx: &ResolvePoll, poll: &mut Poll, winning_nft: Pubkey) -> (r: Result<
    PollResolvedEvent,
    AmmError,
>)
    ensures
        match r {
            Ok(event) => {
                &&& resolve_error(old(poll)@, *ctx, winning_nft) is None
                &&& final(poll)@ == after_resolve(old(poll)@, winning_nft)
                &&& event.poll == ctx.poll
                &&& event.authority == ctx.authority
                &&& event.winning_nft == winning_nft
            },
            Err(e) => {
                &&& resolve_error(old(poll)@, *ctx, winning_nft) == Some(e)
                &&& *final(poll) == *old(poll)
            },
        },
        final(poll)@ == resolved(old(poll)@, *ctx, winning_nft),
        old(poll)@.wf() ==> final(poll)@.wf(),
{
    if !is_authorized(poll, &ctx.authority, &ctx.admin) {
        return Err(AmmError::Unauthorized);
    }
    if poll.status != PollStatus::Active && poll.status != PollStatus::Closed {
        return Err(AmmError::PollNotActive);
    }
    if winning_nft != poll.nft1 && winning_nft != poll.nft2 {
        return Err(AmmError::InvalidNftChoice);
    }
    poll.status = PollStatus::Resolved;
    poll.winning_nft = Some(winning_nft);
    Ok(PollResolvedEvent { poll: ctx.poll, authority: ctx.authority, winning_nft })
}

/// Why a poll cannot be canceled, if it cannot: the caller is looked at first,
/// then the poll's status.
pub open spec fn cancel_error(poll: PollView, ctx: CancelPoll) -> Option<AmmError> {
    if !authorized(poll.authority, ctx.authority, ctx.admin) {
        Some(AmmError::Unauthorized)
    } else if poll.is_terminal() {
        Some(AmmError::PollNotActive)
    } else {
        None
    }
}

/// The poll after it was canceled.
pub open spec fn after_cancel(poll: PollView) -> PollView {
    PollView { status: PollStatus::Canceled, ..poll }
}

/// The poll that a call of `cancel_poll` leaves, accepted or not.
pub open spec fn canceled(poll: PollView, ctx: CancelPoll) -> PollView {
    if cancel_error(poll, ctx) is None {
        after_cancel(poll)
    } else {
        poll
    }
}

/// Cancels a poll.
///
/// Only the poll's authority, or the identity that the call names as admin, may
/// do so, and only while the poll is neither resolved nor canceled. A canceled
/// poll stays canceled.
pub fn cancel_poll(ctx: &CancelPoll, poll: &mut Poll) -> (r: Result<PollCanceledEvent, AmmError>)
    ensures
        match r {
            Ok(event) => {
                &&& cancel_error(old(poll)@, *ctx) is None
                &&& final(poll)@ == after_cancel(old(poll)@)
                &&& event.poll == ctx.poll
                &&& event.authority == ctx.authority
            },
            Err(e) => {
                &&& cancel_error(old(poll)@, *ctx) == Some(e)
                &&& *final(poll) == *old(poll)
            },
        },
        final(poll)@ == canceled(old(poll)@, *ctx),
        old(poll)@.wf() ==> final(poll)@.wf(),
{
    if !is_authorized(poll, &ctx.authority, &ctx.admin) {
        return Err(AmmError::Unauthorized);
    }
    if poll.status == PollStatus::Resolved || poll.status == PollStatus::Canceled {
        return Err(AmmError::PollNotActive);
    }
    poll.status = PollStatus::Canceled;
    Ok(PollCanceledEvent { poll: ctx.poll, authority: ctx.authority })
}

/// The poll after liquidity was added: both reserves have grown, and `k` is
/// their product again.
pub open spec fn after_liquidity(poll: PollView, nft1_amount: nat, nft2_amount: nat) -> PollView {
    PollView {
        nft1_shares: poll.nft1_shares + nft1_amount,
        nft2_shares: poll.nft2_shares + nft2_amount,
        k: (poll.nft1_shares + nft1_amount) * (poll.nft2_shares + nft2_amount),
        ..poll
    }
}

/// Adds `nft1_amount` to the first reserve and `nft2_amount` to the second, and
/// sets `k` to the product of the two.
///
/// The poll's status plays no part. The call fails where a new reserve or the
/// product has no value in 64 bits. The two transfers returned bring the
/// amounts from the user's accounts into the pool's vaults, the first outcome's
/// first.
pub fn add_liquidity(ctx: &AddLiquidity, poll: &mut Poll, nft1_amount: u64, nft2_amount: u64) -> (r:
    Result<(TransferRequest, TransferRequest), AmmError>)
    ensures
        match r {
            Ok((first, second)) => {
                &&& liquidity_error(
                    old(poll)@.nft1_shares,
                    old(poll)@.nft2_shares,
                    nft1_amount as nat,
                    nft2_amount as nat,
                ) is None
                &&& final(poll)@ == after_liquidity(
                    old(poll)@,
                    nft1_amount as nat,
                    nft2_amount as nat,
                )
                &&& first.from == ctx.user_token_account1.key
                &&& first.to == ctx.pool_vault1.key
                &&& first.authority == ctx.user
                &&& first.amount == nft1_amount
                &&& second.from == ctx.user_token_account2.key
                &&& second.to == ctx.pool_vault2.key
                &&& second.authority == ctx.user
                &&& second.amount == nft2_amount
                &&& final(poll)@.k == final(poll)@.nft1_shares * final(poll)@.nft2_shares
            },
            Err(e) => {
                &&& liquidity_error(
                    old(poll)@.nft1_shares,
                    old(poll)@.nft2_shares,
                    nft1_amount as nat,
                    nft2_amount as nat,
                ) == Some(e)
                &&& *final(poll) == *old(poll)
            },
        },
        old(poll)@.wf() ==> final(poll)@.wf(),
{
    let (nft1_shares, nft2_shares, k): (u64, u64, u64) = match grow_reserves(
        poll.nft1_shares,
        poll.nft2_shares,
        nft1_amount,
        nft2_amount,
    ) {
        Ok(grown) => grown,
        Err(e) => {
            return Err(e);
        },
    };
    poll.nft1_shares = nft1_shares;
    poll.nft2_shares = nft2_shares;
    poll.k = k;
    Ok(
        (
            TransferRequest {
                from: ctx.user_token_account1.key,
                to: ctx.pool_vault1.key,
                authority: ctx.user,
                amount: nft1_amount,
            },
            TransferRequest {
                from: ctx.user_token_account2.key,
                to: ctx.pool_vault2.key,
                authority: ctx.user,
                amount: nft2_amount,
            },
        ),
    )
}

} // verus!
