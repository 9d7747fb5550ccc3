//! The ways in which an operation on a poll can be turned down.

use vstd::prelude::*;

verus! {

/// Why an operation was turned down. An operation that fails changes nothing.
#[derive(Clone, Copy, Debug, PartialEq, Eq, Structural)]
pub enum AmmError {
    /// The poll's status does not allow the operation.
    PollNotActive,
    /// The voting deadline has passed.
    PollClosed,
    /// A claim came before the poll was resolved.
    PollNotResolved,
    /// The outcome named is not one of the poll's two.
    InvalidNftChoice,
    /// The stake is larger than the reserve that has to absorb it.
    NotEnoughLiquidity,
    /// The caller may not do this.
    Unauthorized,
    /// The title is longer than 64 bytes.
    TitleTooLong,
    /// An initial reserve is zero.
    InvalidShares,
    /// A token account is of another mint than the poll's.
    InvalidTokenMint,
    /// The paying or receiving token account is not the caller's.
    InvalidTokenOwner,
    /// The vote record belongs to another poll.
    InvalidVote,
    /// The vote record was paid out before.
    AlreadyClaimed,
    /// The vote record backs the outcome that lost.
    NotWinner,
    /// A sum, product, difference or quotient of reserves has no value in 64 bits.
    ArithmeticOverflow,
}

/// The sentence that describes an error to a user.
pub open spec fn message_of(e: AmmError) -> Seq<char> {
    match e {
        AmmError::PollNotActive => "Poll is not active"@,
        AmmError::PollClosed => "Poll is closed"@,
        AmmError::PollNotResolved => "Poll is not resolved yet"@,
        AmmError::InvalidNftChoice => "Invalid NFT choice"@,
        AmmError::NotEnoughLiquidity => "Not enough liquidity"@,
        AmmError::Unauthorized => "Unauthorized action"@,
        AmmError::TitleTooLong => "Title too long (max 64 bytes)"@,
        AmmError::InvalidShares => "Invalid share amounts"@,
        AmmError::InvalidTokenMint => "Invalid token mint"@,
        AmmError::InvalidTokenOwner => "Invalid token owner"@,
        AmmError::InvalidVote => "Invalid vote record"@,
        AmmError::AlreadyClaimed => "Winnings already claimed"@,
        AmmError::NotWinner => "Vote did not win"@,
        AmmError::ArithmeticOverflow => "Arithmetic overflow"@,
    }
}

impl AmmError {
    /// The sentence that describes this error to a user.
    pub fn message(&self) -> (m: &'static str)
        ensures
            m@ == message_of(*self),
    {
        match self {
            AmmError::PollNotActive => "Poll is not active",
            AmmError::PollClosed => "Poll is closed",
            AmmError::PollNotResolved => "Poll is not resolved yet",
            AmmError::InvalidNftChoice => "Invalid NFT choice",
            AmmError::NotEnoughLiquidity => "Not enough liquidity",
            AmmError::Unauthorized => "Unauthorized action",
            AmmError::TitleTooLong => "Title too long (max 64 bytes)",
            AmmError::InvalidShares => "Invalid share amounts",
            AmmError::InvalidTokenMint => "Invalid token mint",
            AmmError::InvalidTokenOwner => "Invalid token owner",
            AmmError::InvalidVote => "Invalid vote record",
            AmmError::AlreadyClaimed => "Winnings already claimed",
            AmmError::NotWinner => "Vote did not win",
            AmmError::ArithmeticOverflow => "Arithmetic overflow",
        }
    }
}

} // verus!
