//! The pricing rules of the constant-product curve, on bare reserves.
//!
//! A poll holds one reserve per outcome and the invariant `k`. A stake on one
//! outcome, less the fee, is added to the other outcome's reserve; the backed
//! reserve falls to `k` divided by that, rounded down, and the difference is what
//! the stake buys.

use crate::error::AmmError;
use vstd::prelude::*;

verus! {

/// The fee in percent of a stake.
pub const FEE_PERCENT: u64 = 3;

/// The scale of a price: 10000 stands for certainty.
pub const PRICE_SCALE: u64 = 10000;

/// The fee on a stake: three hundredths of it, rounded down.
pub open spec fn fee_of(amount: nat) -> nat {
    amount * (FEE_PERCENT as nat) / 100
}

/// What of a stake reaches the pool.
pub open spec fn net_of(amount: nat) -> nat {
    (amount - fee_of(amount)) as nat
}

/// Whether `nft_choice` names one of the two outcomes.
pub open spec fn is_choice(nft_choice: u8) -> bool {
    nft_choice == 1 || nft_choice == 2
}

/// The reserve of the outcome that `nft_choice` backs.
pub open spec fn backed_reserve(nft1_shares: nat, nft2_shares: nat, nft_choice: u8) -> nat {
    if nft_choice == 1 {
        nft1_shares
    } else {
        nft2_shares
    }
}

/// The reserve of the other outcome, which takes the stake in.
pub open spec fn absorbing_reserve(nft1_shares: nat, nft2_shares: nat, nft_choice: u8) -> nat {
    if nft_choice == 1 {
        nft2_shares
    } else {
        nft1_shares
    }
}

/// The absorbing reserve after a stake of `amount`.
pub open spec fn absorbed(nft1_shares: nat, nft2_shares: nat, nft_choice: u8, amount: nat) -> nat {
    absorbing_reserve(nft1_shares, nft2_shares, nft_choice) + net_of(amount)
}

/// The backed reserve after a stake of `amount`.
pub open spec fn remaining(
    nft1_shares: nat,
    nft2_shares: nat,
    k: nat,
    nft_choice: u8,
    amount: nat,
) -> nat {
    k / absorbed(nft1_shares, nft2_shares, nft_choice, amount)
}

/// The shares that a stake of `amount` buys.
pub open spec fn received(
    nft1_shares: nat,
    nft2_shares: nat,
    k: nat,
    nft_choice: u8,
    amount: nat,
) -> int {
    backed_reserve(nft1_shares, nft2_shares, nft_choice) - remaining(
        nft1_shares,
        nft2_shares,
        k,
        nft_choice,
        amount,
    )
}

/// Why a stake cannot be swapped, if it cannot. The choice is looked at first,
/// then the liquidity, then whether the three results exist in 64 bits.
pub open spec fn swap_error(
    nft1_shares: nat,
    nft2_shares: nat,
    k: nat,
    nft_choice: u8,
    amount: nat,
) -> Option<AmmError> {
    if !is_choice(nft_choice) {
        Some(AmmError::InvalidNftChoice)
    } else if net_of(amount) > absorbing_reserve(nft1_shares, nft2_shares, nft_choice) {
        Some(AmmError::NotEnoughLiquidity)
    } else if absorbed(nft1_shares, nft2_shares, nft_choice, amount) > u64::MAX
        || absorbed(nft1_shares, nft2_shares, nft_choice, amount) == 0
        || received(nft1_shares, nft2_shares, k, nft_choice, amount) < 0 {
        Some(AmmError::ArithmeticOverflow)
    } else {
        None
    }
}

/// The first reserve after a swap.
pub open spec fn swapped_nft1(
    nft1_shares: nat,
    nft2_shares: nat,
    k: nat,
    nft_choice: u8,
    amount: nat,
) -> nat {
    if nft_choice == 1 {
        remaining(nft1_shares, nft2_shares, k, nft_choice, amount)
    } else {
        absorbed(nft1_shares, nft2_shares, nft_choice, amount)
    }
}

/// The second reserve after a swap.
pub open spec fn swapped_nft2(
    nft1_shares: nat,
    nft2_shares: nat,
    k: nat,
    nft_choice: u8,
    amount: nat,
) -> nat {
    if nft_choice == 1 {
        absorbed(nft1_shares, nft2_shares, nft_choice, amount)
    } else {
        remaining(nft1_shares, nft2_shares, k, nft_choice, amount)
    }
}

/// The price of an outcome in the eyes of its backers: the other reserve's part
/// of both reserves, in ten-thousandths, rounded down.
pub open spec fn price_of(nft1_shares: nat, nft2_shares: nat, nft_choice: u8) -> nat {
    absorbing_reserve(nft1_shares, nft2_shares, nft_choice) * (PRICE_SCALE as nat) / (nft1_shares
        + nft2_shares)
}

/// Why liquidity cannot be added, if it cannot: a new reserve or their product
/// has no value in 64 bits.
pub open spec fn liquidity_error(
    nft1_shares: nat,
    nft2_shares: nat,
    nft1_amount: nat,
    nft2_amount: nat,
) -> Option<AmmError> {
    if nft1_shares + nft1_amount > u64::MAX || nft2_shares + nft2_amount > u64::MAX || (nft1_shares
        + nft1_amount) * (nft2_shares + nft2_amount) > u64::MAX {
        Some(AmmError::ArithmeticOverflow)
    } else {
        None
    }
}

/// What a swap yields: the shares bought and the two reserves it leaves.
#[derive(Clone, Copy, Debug, PartialEq, Eq, Structural)]
pub struct Swap {
    pub received: u64,
    pub nft1_shares: u64,
    pub nft2_shares: u64,
}

/// The fee never exceeds the stake, and fee and rest add up to it.
pub proof fn lemma_fee_accounting(amount: nat)
    ensures
        fee_of(amount) <= amount,
        net_of(amount) + fee_of(amount) == amount,
{
    assert(amount * 3 / 100 <= amount) by (nonlinear_arith);
}

/// The fee on a stake of `amount`. It never exceeds the stake.
pub fn fee(amount: u64) -> (f: u64)
    ensures
        f == fee_of(amount as nat),
        f <= amount,
{
    proof {
        lemma_fee_accounting(amount as nat);
    }
    let wide: u128 = amount as u128 * FEE_PERCENT as u128 / 100;
    wide as u64
}

/// What is left of a stake of `amount` once the fee is taken. Fee and rest add up
/// to the stake.
pub fn amount_after_fee(amount: u64) -> (net: u64)
    ensures
        net == net_of(amount as nat),
        net + fee_of(amount as nat) == amount,
        net <= amount,
{
    amount - fee(amount)
}

/// A quotient rounded down, times its divisor, does not exceed the dividend, and
/// misses it by less than the divisor.
pub proof fn lemma_floor_div(k: nat, d: nat)
    requires
        d > 0,
    ensures
        (k / d) * d <= k,
        k < (k / d) * d + d,
        k / d <= k,
{
    assert((k / d) * d <= k && k < (k / d) * d + d && k / d <= k) by (nonlinear_arith)
        requires
            d > 0,
    ;
}

/// Swaps a stake of `amount` on the outcome `nft_choice` against the reserves.
///
/// The stake less its fee must not exceed the reserve that absorbs it. The
/// product of the reserves that come out never exceeds `k`.
pub fn swap(nft1_shares: u64, nft2_shares: u64, k: u64, nft_choice: u8, amount: u64) -> (r: Result<
    Swap,
    AmmError,
>)
    ensures
        match r {
            Ok(s) => {
                &&& swap_error(
                    nft1_shares as nat,
                    nft2_shares as nat,
                    k as nat,
                    nft_choice,
                    amount as nat,
                ) is None
                &&& s.received == received(
                    nft1_shares as nat,
                    nft2_shares as nat,
                    k as nat,
                    nft_choice,
                    amount as nat,
                )
                &&& s.nft1_shares == swapped_nft1(
                    nft1_shares as nat,
                    nft2_shares as nat,
                    k as nat,
                    nft_choice,
                    amount as nat,
                )
                &&& s.nft2_shares == swapped_nft2(
                    nft1_shares as nat,
                    nft2_shares as nat,
                    k as nat,
                    nft_choice,
                    amount as nat,
                )
                &&& s.nft1_shares * s.nft2_shares <= k
                &&& s.nft1_shares + s.nft2_shares > 0
            },
            Err(e) => swap_error(
                nft1_shares as nat,
                nft2_shares as nat,
                k as nat,
                nft_choice,
                amount as nat,
            ) == Some(e),
        },
{
    if nft_choice != 1 && nft_choice != 2 {
        return Err(AmmError::InvalidNftChoice);
    }
    let net: u64 = amount_after_fee(amount);
    let (backed, absorbing): (u64, u64) = if nft_choice == 1 {
        (nft1_shares, nft2_shares)
    } else {
        (nft2_shares, nft1_shares)
    };
    if net > absorbing {
        return Err(AmmError::NotEnoughLiquidity);
    }
    let grown: u64 = match absorbing.checked_add(net) {
        Some(g) => g,
        None => {
            return Err(AmmError::ArithmeticOverflow);
        },
    };
    if grown == 0 {
        return Err(AmmError::ArithmeticOverflow);
    }
    let left: u64 = k / grown;
    if left > backed {
        return Err(AmmError::ArithmeticOverflow);
    }
    proof {
        lemma_floor_div(k as nat, grown as nat);
        assert(left * grown == grown * left) by (nonlinear_arith);
    }
    if nft_choice == 1 {
        Ok(Swap { received: backed - left, nft1_shares: left, nft2_shares: grown })
    } else {
        Ok(Swap { received: backed - left, nft1_shares: grown, nft2_shares: left })
    }
}

/// The price of the outcome `nft_choice` at the given reserves, between 0 and
/// 10000. The reserves must not both be empty.
pub fn get_price(nft1_shares: u64, nft2_shares: u64, nft_choice: u8) -> (p: u64)
    requires
        nft1_shares + nft2_shares > 0,
    ensures
        p == price_of(nft1_shares as nat, nft2_shares as nat, nft_choice),
        p <= PRICE_SCALE,
{
    let total: u128 = nft1_shares as u128 + nft2_shares as u128;
    let other: u128 = if nft_choice == 1 {
        nft2_shares as u128
    } else {
        nft1_shares as u128
    };
    assert(other * 10000 / (total as int) <= 10000) by (nonlinear_arith)
        requires
            other <= total,
            total > 0,
    ;
    let p: u128 = other * PRICE_SCALE as u128 / total;
    p as u64
}

/// Adds to both reserves and takes their product as the new invariant: the two
/// new reserves and the new `k`, in this order.
pub fn grow_reserves(nft1_shares: u64, nft2_shares: u64, nft1_amount: u64, nft2_amount: u64) -> (r:
    Result<(u64, u64, u64), AmmError>)
    ensures
        match r {
            Ok((n1, n2, k)) => {
                &&& liquidity_error(
                    nft1_shares as nat,
                    nft2_shares as nat,
                    nft1_amount as nat,
                    nft2_amount as nat,
                ) is None
                &&& n1 == nft1_shares + nft1_amount
                &&& n2 == nft2_shares + nft2_amount
                &&& k == n1 * n2
            },
            Err(e) => liquidity_error(
                nft1_shares as nat,
                nft2_shares as nat,
                nft1_amount as nat,
                nft2_amount as nat,
            ) == Some(e),
        },
{
    let n1: u64 = match nft1_shares.checked_add(nft1_amount) {
        Some(n) => n,
        None => {
            return Err(AmmError::ArithmeticOverflow);
        },
    };
    let n2: u64 = match nft2_shares.checked_add(nft2_amount) {
        Some(n) => n,
        None => {
            return Err(AmmError::ArithmeticOverflow);
        },
    };
    match n1.checked_mul(n2) {
        Some(k) => Ok((n1, n2, k)),
        None => Err(AmmError::ArithmeticOverflow),
    }
}

} // verus!
