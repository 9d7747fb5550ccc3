//! A two-outcome prediction market on a constant-product curve: the ledger
//! records, the pricing rules, and the transitions of a poll's life, each with a
//! contract that Verus proves.

pub mod accounts;
pub mod amm;
pub mod authorization;
pub mod error;
pub mod events;
pub mod laws;
pub mod lifecycle;
pub mod pubkey;
pub mod settlement;
pub mod state;

pub use accounts::{
    AddLiquidity, CancelPoll, ClaimWinnings, CreatePoll, ResolvePoll, TokenAccount,
    TransferRequest, VoteOnPoll,
};
pub use amm::{amount_after_fee, fee, get_price, grow_reserves, swap, Swap};
pub use authorization::is_authorized;
pub use error::AmmError;
pub use events::{PollCanceledEvent, PollCreatedEvent, PollResolvedEvent, WinningsClaimed};
pub use lifecycle::{
    add_liquidity, cancel_poll, create_poll, resolve_poll, vote, VoteReceipt,
};
pub use pubkey::Pubkey;
pub use settlement::claim_winnings;
pub use state::{Poll, PollStatus, Vote};
