//! What an operation reports to those who follow a poll from outside.

use crate::pubkey::Pubkey;
use vstd::prelude::*;

verus! {

/// A poll was created.
#[derive(Clone, Copy, Debug, PartialEq, Eq)]
pub struct PollCreatedEvent {
    pub poll: Pubkey,
    pub authority: Pubkey,
    pub nft1: Pubkey,
    pub nft2: Pubkey,
    pub closes_at: i64,
}

/// A poll was resolved in favour of `winning_nft`.
#[derive(Clone, Copy, Debug, PartialEq, Eq)]
pub struct PollResolvedEvent {
    pub poll: Pubkey,
    pub authority: Pubkey,
    pub winning_nft: Pubkey,
}

/// A poll was canceled.
#[derive(Clone, Copy, Debug, PartialEq, Eq)]
pub struct PollCanceledEvent {
    pub poll: Pubkey,
    pub authority: Pubkey,
}

/// A winning vote was paid out.
#[derive(Clone, Copy, Debug, PartialEq, Eq)]
pub struct WinningsClaimed {
    pub poll: Pubkey,
    pub user: Pubkey,
    pub amount: u64,
}

} // verus!
