//! What holds of a poll over its whole life, proved from the contracts of the
//! single operations.

use crate::accounts::{CancelPoll, ClaimWinnings, ResolvePoll, VoteOnPoll};
use crate::amm::{absorbed, lemma_floor_div, remaining};
use crate::authorization::authorized;
use crate::error::AmmError;
use crate::lifecycle::{
    after_cancel, after_resolve, after_vote, cancel_error, canceled, resolve_error, resolved,
    vote_error, voted,
};
use crate::pubkey::Pubkey;
use crate::settlement::{claim_error, claimed, settled};
use crate::state::{PollView, Vote};
use vstd::prelude::*;

verus! {

/// One call of `vote`: its surroundings and its arguments.
pub struct VoteCall {
    pub ctx: VoteOnPoll,
    pub nft_choice: u8,
    pub amount: u64,
    pub now: i64,
}

/// The poll that one call of `vote` leaves.
pub open spec fn after_call(poll: PollView, call: VoteCall) -> PollView {
    voted(poll, call.ctx, call.nft_choice, call.amount as nat, call.now as int)
}

/// The poll after a run of calls of `vote`, accepted or not, with nothing else
/// in between.
pub open spec fn after_votes(poll: PollView, calls: Seq<VoteCall>) -> PollView
    decreases calls.len(),
{
    if calls.len() == 0 {
        poll
    } else {
        after_call(after_votes(poll, calls.drop_last()), calls.last())
    }
}

/// Whether a call of `vote`, if it is accepted, leaves the reserve that takes the
/// stake in at `k` at most.
pub open spec fn within_k(poll: PollView, call: VoteCall) -> bool {
    vote_error(poll, call.ctx, call.nft_choice, call.amount as nat, call.now as int) is None
        ==> absorbed(poll.nft1_shares, poll.nft2_shares, call.nft_choice, call.amount as nat)
        <= poll.k
}

/// Whether every call of a run is `within_k` on the poll that it meets.
pub open spec fn all_within_k(poll: PollView, calls: Seq<VoteCall>) -> bool
    decreases calls.len(),
{
    calls.len() == 0 || (all_within_k(poll, calls.drop_last()) && within_k(
        after_votes(poll, calls.drop_last()),
        calls.last(),
    ))
}

/// An accepted vote leaves the product of the reserves at `k` at most, whatever
/// the reserves were before.
pub proof fn lemma_vote_keeps_product_under_k(
    poll: PollView,
    ctx: VoteOnPoll,
    nft_choice: u8,
    amount: nat,
    now: int,
)
    requires
        vote_error(poll, ctx, nft_choice, amount, now) is None,
    ensures
        after_vote(poll, nft_choice, amount).k == poll.k,
        after_vote(poll, nft_choice, amount).nft1_shares * after_vote(
            poll,
            nft_choice,
            amount,
        ).nft2_shares <= poll.k,
{
    let grown = absorbed(poll.nft1_shares, poll.nft2_shares, nft_choice, amount);
    let left = remaining(poll.nft1_shares, poll.nft2_shares, poll.k, nft_choice, amount);
    lemma_floor_div(poll.k, grown);
    assert(left * grown == grown * left) by (nonlinear_arith);
}

/// After a run of votes on a poll, with no liquidity added in between, `k` is
/// what it was and the product of the reserves does not exceed it.
pub proof fn lemma_run_keeps_product_under_k(poll: PollView, calls: Seq<VoteCall>)
    requires
        poll.nft1_shares * poll.nft2_shares <= poll.k,
    ensures
        after_votes(poll, calls).k == poll.k,
        after_votes(poll, calls).nft1_shares * after_votes(poll, calls).nft2_shares <= poll.k,
    decreases calls.len(),
{
    if calls.len() > 0 {
        let before = after_votes(poll, calls.drop_last());
        let call = calls.last();
        lemma_run_keeps_product_under_k(poll, calls.drop_last());
        if vote_error(before, call.ctx, call.nft_choice, call.amount as nat, call.now as int)
            is None {
            lemma_vote_keeps_product_under_k(
                before,
                call.ctx,
                call.nft_choice,
                call.amount as nat,
                call.now as int,
            );
        }
    }
}

/// Over any run of votes on a poll whose reserves multiply to `k` at most, with
/// no liquidity added in between, after each vote `k` is what it was and the
/// product of the reserves does not exceed it.
pub proof fn lemma_votes_never_raise_product(poll: PollView, calls: Seq<VoteCall>)
    requires
        poll.nft1_shares * poll.nft2_shares <= poll.k,
    ensures
        forall|n: int|
            0 <= n <= calls.len() ==> {
                let reached = #[trigger] after_votes(poll, calls.take(n));
                reached.k == poll.k && reached.nft1_shares * reached.nft2_shares <= poll.k
            },
{
    assert forall|n: int| 0 <= n <= calls.len() implies {
        let reached = #[trigger] after_votes(poll, calls.take(n));
        reached.k == poll.k && reached.nft1_shares * reached.nft2_shares <= poll.k
    } by {
        lemma_run_keeps_product_under_k(poll, calls.take(n));
    }
}

/// An accepted vote leaves both reserves positive exactly when the reserve that
/// takes the stake in does not grow beyond `k`. Where it does, the backed reserve
/// falls to zero.
pub proof fn lemma_vote_keeps_reserves_positive_iff(
    poll: PollView,
    ctx: VoteOnPoll,
    nft_choice: u8,
    amount: nat,
    now: int,
)
    requires
        vote_error(poll, ctx, nft_choice, amount, now) is None,
    ensures
        (after_vote(poll, nft_choice, amount).nft1_shares > 0 && after_vote(
            poll,
            nft_choice,
            amount,
        ).nft2_shares > 0) <==> absorbed(poll.nft1_shares, poll.nft2_shares, nft_choice, amount)
            <= poll.k,
{
    let grown = absorbed(poll.nft1_shares, poll.nft2_shares, nft_choice, amount);
    let k = poll.k;
    assert((k / grown > 0) <==> grown <= k) by (nonlinear_arith)
        requires
            grown > 0,
    ;
}

/// After a run of votes in which no accepted vote lets the reserve that takes
/// its stake in grow beyond `k`, both reserves are positive.
pub proof fn lemma_run_keeps_reserves_positive(poll: PollView, calls: Seq<VoteCall>)
    requires
        poll.nft1_shares > 0,
        poll.nft2_shares > 0,
        all_within_k(poll, calls),
    ensures
        after_votes(poll, calls).nft1_shares > 0,
        after_votes(poll, calls).nft2_shares > 0,
    decreases calls.len(),
{
    if calls.len() > 0 {
        let before = after_votes(poll, calls.drop_last());
        let call = calls.last();
        lemma_run_keeps_reserves_positive(poll, calls.drop_last());
        if vote_error(before, call.ctx, call.nft_choice, call.amount as nat, call.now as int)
            is None {
            lemma_vote_keeps_reserves_positive_iff(
                before,
                call.ctx,
                call.nft_choice,
                call.amount as nat,
                call.now as int,
            );
        }
    }
}

/// What holds of every call of a run holds of every call of its beginnings.
pub proof fn lemma_all_within_k_of_prefix(poll: PollView, calls: Seq<VoteCall>, n: int)
    requires
        all_within_k(poll, calls),
        0 <= n <= calls.len(),
    ensures
        all_within_k(poll, calls.take(n)),
    decreases calls.len(),
{
    if n == calls.len() {
        assert(calls.take(n) =~= calls);
    } else {
        assert(calls.take(n) =~= calls.drop_last().take(n));
        lemma_all_within_k_of_prefix(poll, calls.drop_last(), n);
    }
}

/// Over any run of votes on a poll with two positive reserves, in which no
/// accepted vote lets the reserve that takes its stake in grow beyond `k`, both
/// reserves are positive after each vote.
pub proof fn lemma_votes_keep_reserves_positive(poll: PollView, calls: Seq<VoteCall>)
    requires
        poll.nft1_shares > 0,
        poll.nft2_shares > 0,
        all_within_k(poll, calls),
    ensures
        forall|n: int|
            0 <= n <= calls.len() ==> {
                let reached = #[trigger] after_votes(poll, calls.take(n));
                reached.nft1_shares > 0 && reached.nft2_shares > 0
            },
{
    assert forall|n: int| 0 <= n <= calls.len() implies {
        let reached = #[trigger] after_votes(poll, calls.take(n));
        reached.nft1_shares > 0 && reached.nft2_shares > 0
    } by {
        lemma_all_within_k_of_prefix(poll, calls, n);
        lemma_run_keeps_reserves_positive(poll, calls.take(n));
    }
}

/// A vote that was paid out is never paid out again: on the poll and in the
/// surroundings of the first claim, a second claim is turned down as already
/// claimed and leaves the vote as it is; and no claim at all, on whatever poll
/// and in whatever surroundings, is accepted for it.
pub proof fn lemma_claim_at_most_once(
    poll: PollView,
    ctx: ClaimWinnings,
    vote: Vote,
    other_poll: PollView,
    other_ctx: ClaimWinnings,
)
    requires
        claim_error(poll, ctx, vote) is None,
    ensures
        claim_error(poll, ctx, settled(poll, ctx, vote)) == Some(AmmError::AlreadyClaimed),
        settled(poll, ctx, settled(poll, ctx, vote)) == settled(poll, ctx, vote),
        claim_error(other_poll, other_ctx, settled(poll, ctx, vote)) is Some,
{
}

/// A caller who is neither the poll's authority nor the admin that the call
/// names can neither resolve nor cancel, whatever the poll's state.
pub proof fn lemma_strangers_are_turned_down(
    poll: PollView,
    resolve_ctx: ResolvePoll,
    winning_nft: Pubkey,
    cancel_ctx: CancelPoll,
)
    requires
        resolve_ctx.authority != poll.authority,
        resolve_ctx.authority != resolve_ctx.admin,
        cancel_ctx.authority != poll.authority,
        cancel_ctx.authority != cancel_ctx.admin,
    ensures
        resolve_error(poll, resolve_ctx, winning_nft) == Some(AmmError::Unauthorized),
        resolved(poll, resolve_ctx, winning_nft) == poll,
        cancel_error(poll, cancel_ctx) == Some(AmmError::Unauthorized),
        canceled(poll, cancel_ctx) == poll,
{
}

/// The poll's authority is authorized whatever admin the call names: it
/// resolves a poll that has not ended in favour of either outcome, and cancels a
/// poll that has not ended.
pub proof fn lemma_authority_is_let_through(
    poll: PollView,
    resolve_ctx: ResolvePoll,
    winning_nft: Pubkey,
    cancel_ctx: CancelPoll,
)
    requires
        resolve_ctx.authority == poll.authority,
        cancel_ctx.authority == poll.authority,
        !poll.is_terminal(),
        winning_nft == poll.nft1 || winning_nft == poll.nft2,
    ensures
        authorized(poll.authority, resolve_ctx.authority, resolve_ctx.admin),
        authorized(poll.authority, cancel_ctx.authority, cancel_ctx.admin),
        resolve_error(poll, resolve_ctx, winning_nft) is None,
        cancel_error(poll, cancel_ctx) is None,
{
}

/// Resolving and canceling end a poll.
pub proof fn lemma_resolve_and_cancel_are_terminal(poll: PollView, winning_nft: Pubkey)
    ensures
        after_resolve(poll, winning_nft).is_terminal(),
        after_cancel(poll).is_terminal(),
{
}

/// A poll that has ended stays as it is: every vote is turned down because the
/// poll is not active, and so is every attempt to resolve or cancel it by a
/// caller who is authorized. A caller who is not is turned down as unauthorized.
pub proof fn lemma_terminal_polls_do_not_move(
    poll: PollView,
    vote_ctx: VoteOnPoll,
    nft_choice: u8,
    amount: nat,
    now: int,
    resolve_ctx: ResolvePoll,
    winning_nft: Pubkey,
    cancel_ctx: CancelPoll,
)
    requires
        poll.is_terminal(),
    ensures
        vote_error(poll, vote_ctx, nft_choice, amount, now) == Some(AmmError::PollNotActive),
        voted(poll, vote_ctx, nft_choice, amount, now) == poll,
        authorized(poll.authority, resolve_ctx.authority, resolve_ctx.admin) ==> resolve_error(
            poll,
            resolve_ctx,
            winning_nft,
        ) == Some(AmmError::PollNotActive),
        !authorized(poll.authority, resolve_ctx.authority, resolve_ctx.admin) ==> resolve_error(
            poll,
            resolve_ctx,
            winning_nft,
        ) == Some(AmmError::Unauthorized),
        resolved(poll, resolve_ctx, winning_nft) == poll,
        authorized(poll.authority, cancel_ctx.authority, cancel_ctx.admin) ==> cancel_error(
            poll,
            cancel_ctx,
        ) == Some(AmmError::PollNotActive),
        !authorized(poll.authority, cancel_ctx.authority, cancel_ctx.admin) ==> cancel_error(
            poll,
            cancel_ctx,
        ) == Some(AmmError::Unauthorized),
        canceled(poll, cancel_ctx) == poll,
{
}

} // verus!
