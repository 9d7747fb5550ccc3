//! The ledger records: a poll, and one vote on it.

use crate::pubkey::Pubkey;
use vstd::prelude::*;

verus! {

/// The longest title that a poll may carry, in bytes.
pub const MAX_TITLE_LEN: usize = 64;

/// Where a poll stands in its life. `Resolved` and `Canceled` are final. No
/// operation stores `Closed`: that voting has ended is read off the deadline.
#[derive(Clone, Copy, Debug, PartialEq, Eq, Structural)]
pub enum PollStatus {
    Active,
    Closed,
    Resolved,
    Canceled,
}

/// One prediction market: two outcomes, a reserve for each, and the invariant
/// `k` that their product had when liquidity last changed.
#[derive(Clone, Debug, PartialEq, Eq)]
pub struct Poll {
    pub authority: Pubkey,
    pub title: Vec<u8>,
    pub closes_at: i64,
    pub nft1: Pubkey,
    pub nft2: Pubkey,
    pub nft1_shares: u64,
    pub nft2_shares: u64,
    pub k: u64,
    pub status: PollStatus,
    pub winning_nft: Option<Pubkey>,
    pub token_mint: Pubkey,
}

/// A poll as a mathematical value: the title as a sequence, the numbers unbounded.
pub struct PollView {
    pub authority: Pubkey,
    pub title: Seq<u8>,
    pub closes_at: int,
    pub nft1: Pubkey,
    pub nft2: Pubkey,
    pub nft1_shares: nat,
    pub nft2_shares: nat,
    pub k: nat,
    pub status: PollStatus,
    pub winning_nft: Option<Pubkey>,
    pub token_mint: Pubkey,
}

impl View for Poll {
    type V = PollView;

    open spec fn view(&self) -> PollView {
        PollView {
            authority: self.authority,
            title: self.title@,
            closes_at: self.closes_at as int,
            nft1: self.nft1,
            nft2: self.nft2,
            nft1_shares: self.nft1_shares as nat,
            nft2_shares: self.nft2_shares as nat,
            k: self.k as nat,
            status: self.status,
            winning_nft: self.winning_nft,
            token_mint: self.token_mint,
        }
    }
}

impl PollView {
    /// Whether the poll has reached a status that it cannot leave.
    pub open spec fn is_terminal(self) -> bool {
        self.status == PollStatus::Resolved || self.status == PollStatus::Canceled
    }

    /// What creation establishes and every operation keeps: the title fits, the
    /// product of the reserves does not exceed `k`, the reserves are not both
    /// empty, and a winner is recorded exactly when the poll is resolved, and is
    /// one of the two outcomes.
    pub open spec fn wf(self) -> bool {
        &&& self.title.len() <= MAX_TITLE_LEN
        &&& self.nft1_shares * self.nft2_shares <= self.k
        &&& self.nft1_shares + self.nft2_shares > 0
        &&& (self.status == PollStatus::Resolved <==> self.winning_nft is Some)
        &&& (self.winning_nft matches Some(w) ==> w == self.nft1 || w == self.nft2)
    }
}

/// One user's stake in one poll.
#[derive(Clone, Copy, Debug, PartialEq, Eq)]
pub struct Vote {
    /// The poll that the stake was placed on.
    pub poll: Pubkey,
    /// Who placed it.
    pub user: Pubkey,
    /// The outcome backed: 1 or 2.
    pub voted_for_nft: u8,
    /// The shares bought, which are paid out if the outcome wins.
    pub amount: u64,
    /// The stake as it was handed in, fee included.
    pub value: u64,
    /// The price of the outcome right after the stake, in ten-thousandths.
    pub price_at_transaction: u64,
    /// Whether the shares have been paid out.
    pub claimed: bool,
}

} // verus!
