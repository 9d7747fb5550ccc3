//! What each operation is handed besides its arguments: who calls, which
//! records and which token accounts it touches, and the conditions that bind
//! them to one another.

use crate::error::AmmError;
use crate::pubkey::Pubkey;
use crate::state::{Poll, PollStatus, PollView, Vote};
use vstd::prelude::*;

verus! {

/// A token account, as far as an operation reads it.
#[derive(Clone, Copy, Debug, PartialEq, Eq)]
pub struct TokenAccount {
    /// Where the account lives.
    pub key: Pubkey,
    /// The token that it holds.
    pub mint: Pubkey,
    /// Who may spend from it.
    pub owner: Pubkey,
}

/// A request to move `amount` tokens, which the caller of an operation carries
/// out.
#[derive(Clone, Copy, Debug, PartialEq, Eq)]
pub struct TransferRequest {
    pub from: Pubkey,
    pub to: Pubkey,
    pub authority: Pubkey,
    pub amount: u64,
}

/// The surroundings of `create_poll`.
#[derive(Clone, Copy, Debug, PartialEq, Eq)]
pub struct CreatePoll {
    /// Where the new poll will live.
    pub poll: Pubkey,
    /// Who creates it.
    pub authority: Pubkey,
    /// The token in which stakes are placed and paid out.
    pub token_mint: Pubkey,
}

/// The surroundings of `vote`.
#[derive(Clone, Copy, Debug, PartialEq, Eq)]
pub struct VoteOnPoll {
    pub poll: Pubkey,
    pub user: Pubkey,
    /// Pays the stake.
    pub user_token_account: TokenAccount,
    /// Receives the stake less the fee.
    pub pool_vault: TokenAccount,
    /// Receives the fee.
    pub fee_vault: TokenAccount,
}

/// The surroundings of `resolve_poll`.
#[derive(Clone, Copy, Debug, PartialEq, Eq)]
pub struct ResolvePoll {
    pub poll: Pubkey,
    /// Who calls.
    pub authority: Pubkey,
    /// The second identity that may resolve, as the call itself names it.
    pub admin: Pubkey,
}

/// The surroundings of `cancel_poll`.
#[derive(Clone, Copy, Debug, PartialEq, Eq)]
pub struct CancelPoll {
    pub poll: Pubkey,
    /// Who calls.
    pub authority: Pubkey,
    /// The second identity that may cancel, as the call itself names it.
    pub admin: Pubkey,
}

/// The surroundings of `add_liquidity`.
#[derive(Clone, Copy, Debug, PartialEq, Eq)]
pub struct AddLiquidity {
    pub user: Pubkey,
    pub user_token_account1: TokenAccount,
    pub user_token_account2: TokenAccount,
    pub pool_vault1: TokenAccount,
    pub pool_vault2: TokenAccount,
}

/// The surroundings of `claim_winnings`.
#[derive(Clone, Copy, Debug, PartialEq, Eq)]
pub struct ClaimWinnings {
    pub poll: Pubkey,
    pub user: Pubkey,
    /// Receives the payout.
    pub user_token_account: TokenAccount,
    /// Pays it.
    pub pool_vault: TokenAccount,
    /// The poll's own signing identity, which authorizes the payout.
    pub pool_authority: Pubkey,
}

impl VoteOnPoll {
    /// The first condition on the surroundings of a vote that does not hold, if
    /// there is one: the poll is active, the paying account is of the poll's
    /// mint and the caller's, and both vaults are of the poll's mint.
    pub open spec fn constraint_error(self, poll: PollView) -> Option<AmmError> {
        if poll.status != PollStatus::Active {
            Some(AmmError::PollNotActive)
        } else if self.user_token_account.mint != poll.token_mint {
            Some(AmmError::InvalidTokenMint)
        } else if self.user_token_account.owner != self.user {
            Some(AmmError::InvalidTokenOwner)
        } else if self.pool_vault.mint != poll.token_mint {
            Some(AmmError::InvalidTokenMint)
        } else if self.fee_vault.mint != poll.token_mint {
            Some(AmmError::InvalidTokenMint)
        } else {
            None
        }
    }

    /// Checks the conditions on the surroundings of a vote, in their order.
    pub fn validate(&self, poll: &Poll) -> (r: Result<(), AmmError>)
        ensures
            match r {
                Ok(_) => self.constraint_error(poll@) is None,
                Err(e) => self.constraint_error(poll@) == Some(e),
            },
    {
        if poll.status != PollStatus::Active {
            Err(AmmError::PollNotActive)
        } else if self.user_token_account.mint != poll.token_mint {
            Err(AmmError::InvalidTokenMint)
        } else if self.user_token_account.owner != self.user {
            Err(AmmError::InvalidTokenOwner)
        } else if self.pool_vault.mint != poll.token_mint {
            Err(AmmError::InvalidTokenMint)
        } else if self.fee_vault.mint != poll.token_mint {
            Err(AmmError::InvalidTokenMint)
        } else {
            Ok(())
        }
    }
}

impl ClaimWinnings {
    /// The first condition on the surroundings of a claim that does not hold, if
    /// there is one: the poll is resolved, the vote is on this poll and the
    /// caller's, the receiving account is the caller's and of the poll's mint,
    /// and the vault is of the poll's mint.
    pub open spec fn constraint_error(self, poll: PollView, vote: Vote) -> Option<AmmError> {
        if poll.status != PollStatus::Resolved {
            Some(AmmError::PollNotResolved)
        } else if vote.poll != self.poll {
            Some(AmmError::InvalidVote)
        } else if vote.user != self.user {
            Some(AmmError::Unauthorized)
        } else if self.user_token_account.owner != self.user {
            Some(AmmError::InvalidTokenOwner)
        } else if self.user_token_account.mint != poll.token_mint {
            Some(AmmError::InvalidTokenMint)
        } else if self.pool_vault.mint != poll.token_mint {
            Some(AmmError::InvalidTokenMint)
        } else {
            None
        }
    }

    /// Checks the conditions on the surroundings of a claim, in their order.
    pub fn validate(&self, poll: &Poll, vote: &Vote) -> (r: Result<(), AmmError>)
        ensures
            match r {
                Ok(_) => self.constraint_error(poll@, *vote) is None,
                Err(e) => self.constraint_error(poll@, *vote) == Some(e),
            },
    {
        if poll.status != PollStatus::Resolved {
            Err(AmmError::PollNotResolved)
        } else if vote.poll != self.poll {
            Err(AmmError::InvalidVote)
        } else if vote.user != self.user {
            Err(AmmError::Unauthorized)
        } else if self.user_token_account.owner != self.user {
            Err(AmmError::InvalidTokenOwner)
        } else if self.user_token_account.mint != poll.token_mint {
            Err(AmmError::InvalidTokenMint)
        } else if self.pool_vault.mint != poll.token_mint {
            Err(AmmError::InvalidTokenMint)
        } else {
            Ok(())
        }
    }
}

} // verus!
