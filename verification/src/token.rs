//! Token accounts, mints, and the three operations of the ledger on them.
//!
//! An account is a record of plain values, and an operation changes the
//! records it is given. Every operation either applies in full or fails and
//! leaves both of its records as they were.

use crate::address::Address;
use crate::error::{HostError, StakeError};
use vstd::prelude::*;

verus! {

/// A token account: a balance of one mint's token under one owner.
#[derive(Clone, Copy, Debug, PartialEq, Eq)]
pub struct TokenAccount {
    /// Where the account lives.
    pub address: Address,
    /// The mint whose token the account holds.
    pub mint: Address,
    /// Who may move the balance out.
    pub owner: Address,
    /// The balance, in the mint's smallest unit.
    pub amount: u64,
}

/// A mint: the identity of a token and the count of its units in circulation.
#[derive(Clone, Copy, Debug, PartialEq, Eq)]
pub struct Mint {
    /// Where the mint lives. This is the token's identity.
    pub address: Address,
    /// Who may issue new units.
    pub mint_authority: Address,
    /// The number of decimal places of one whole token.
    pub decimals: u8,
    /// The units in circulation.
    pub supply: u64,
}

impl TokenAccount {
    /// The account with `amount` taken out.
    pub open spec fn debited(self, amount: u64) -> TokenAccount {
        TokenAccount { amount: (self.amount - amount) as u64, ..self }
    }

    /// The account with `amount` put in.
    pub open spec fn credited(self, amount: u64) -> TokenAccount {
        TokenAccount { amount: (self.amount + amount) as u64, ..self }
    }
}

impl Mint {
    /// The mint after `amount` new units were issued.
    pub open spec fn issued(self, amount: u64) -> Mint {
        Mint { supply: (self.supply + amount) as u64, ..self }
    }

    /// The mint after `amount` units were destroyed.
    pub open spec fn redeemed(self, amount: u64) -> Mint {
        Mint { supply: (self.supply - amount) as u64, ..self }
    }
}

/// Why the ledger refuses to move `amount` from `from` to `to` in the name of
/// `authority`, or `None` where it does not refuse.
pub open spec fn transfer_failure(
    from: TokenAccount,
    to: TokenAccount,
    authority: Address,
    amount: u64,
) -> Option<StakeError> {
    if from.owner != authority {
        Some(StakeError::HostError(HostError::OwnerMismatch))
    } else if from.mint != to.mint {
        Some(StakeError::HostError(HostError::MintMismatch))
    } else if from.amount < amount {
        Some(StakeError::InsufficientFunds)
    } else if to.amount + amount > u64::MAX {
        Some(StakeError::HostError(HostError::Overflow))
    } else {
        None
    }
}

/// Why the ledger refuses to issue `amount` units of `mint` into `to` in the
/// name of `authority`, or `None` where it does not refuse.
pub open spec fn mint_to_failure(mint: Mint, to: TokenAccount, authority: Address, amount: u64) -> Option<
    StakeError,
> {
    if mint.mint_authority != authority {
        Some(StakeError::HostError(HostError::OwnerMismatch))
    } else if to.mint != mint.address {
        Some(StakeError::HostError(HostError::MintMismatch))
    } else if mint.supply + amount > u64::MAX || to.amount + amount > u64::MAX {
        Some(StakeError::HostError(HostError::Overflow))
    } else {
        None
    }
}

/// Why the ledger refuses to destroy `amount` units of `mint` held in `from`
/// in the name of `authority`, or `None` where it does not refuse.
pub open spec fn burn_failure(mint: Mint, from: TokenAccount, authority: Address, amount: u64) -> Option<
    StakeError,
> {
    if from.owner != authority {
        Some(StakeError::HostError(HostError::OwnerMismatch))
    } else if from.mint != mint.address {
        Some(StakeError::HostError(HostError::MintMismatch))
    } else if from.amount < amount {
        Some(StakeError::InsufficientFunds)
    } else if mint.supply < amount {
        Some(StakeError::HostError(HostError::Overflow))
    } else {
        None
    }
}

/// Moves `amount` from `from` to `to`. `authority` must own `from`, and both
/// accounts must hold the same token.
pub fn transfer(from: &mut TokenAccount, to: &mut TokenAccount, authority: &Address, amount: u64) -> (done:
    Result<(), StakeError>)
    ensures
        match transfer_failure(*old(from), *old(to), *authority, amount) {
            Some(error) => {
                &&& done == Err::<(), StakeError>(error)
                &&& *final(from) == *old(from)
                &&& *final(to) == *old(to)
            },
            None => {
                &&& done is Ok
                &&& *final(from) == old(from).debited(amount)
                &&& *final(to) == old(to).credited(amount)
            },
        },
{
    if !(from.owner == *authority) {
        return Err(StakeError::HostError(HostError::OwnerMismatch));
    }
    if !(from.mint == to.mint) {
        return Err(StakeError::HostError(HostError::MintMismatch));
    }
    if from.amount < amount {
        return Err(StakeError::InsufficientFunds);
    }
    if to.amount > u64::MAX - amount {
        return Err(StakeError::HostError(HostError::Overflow));
    }
    from.amount = from.amount - amount;
    to.amount = to.amount + amount;
    Ok(())
}

/// Issues `amount` new units of `mint` into `to`. `authority` must be the
/// mint's authority, and `to` must hold the mint's token.
pub fn mint_to(mint: &mut Mint, to: &mut TokenAccount, authority: &Address, amount: u64) -> (done: Result<
    (),
    StakeError,
>)
    ensures
        match mint_to_failure(*old(mint), *old(to), *authority, amount) {
            Some(error) => {
                &&& done == Err::<(), StakeError>(error)
                &&& *final(mint) == *old(mint)
                &&& *final(to) == *old(to)
            },
            None => {
                &&& done is Ok
                &&& *final(mint) == old(mint).issued(amount)
                &&& *final(to) == old(to).credited(amount)
            },
        },
{
    if !(mint.mint_authority == *authority) {
        return Err(StakeError::HostError(HostError::OwnerMismatch));
    }
    if !(to.mint == mint.address) {
        return Err(StakeError::HostError(HostError::MintMismatch));
    }
    if mint.supply > u64::MAX - amount || to.amount > u64::MAX - amount {
        return Err(StakeError::HostError(HostError::Overflow));
    }
    mint.supply = mint.supply + amount;
    to.amount = to.amount + amount;
    Ok(())
}

/// Destroys `amount` units of `mint` held in `from`. `authority` must own
/// `from`, and `from` must hold the mint's token.
pub fn burn(mint: &mut Mint, from: &mut TokenAccount, authority: &Address, amount: u64) -> (done: Result<
    (),
    StakeError,
>)
    ensures
        match burn_failure(*old(mint), *old(from), *authority, amount) {
            Some(error) => {
                &&& done == Err::<(), StakeError>(error)
                &&& *final(mint) == *old(mint)
                &&& *final(from) == *old(from)
            },
            None => {
                &&& done is Ok
                &&& *final(mint) == old(mint).redeemed(amount)
                &&& *final(from) == old(from).debited(amount)
            },
        },
{
    if !(from.owner == *authority) {
        return Err(StakeError::HostError(HostError::OwnerMismatch));
    }
    if !(from.mint == mint.address) {
        return Err(StakeError::HostError(HostError::MintMismatch));
    }
    if from.amount < amount {
        return Err(StakeError::InsufficientFunds);
    }
    if mint.supply < amount {
        return Err(StakeError::HostError(HostError::Overflow));
    }
    mint.supply = mint.supply - amount;
    from.amount = from.amount - amount;
    Ok(())
}

} // verus!
