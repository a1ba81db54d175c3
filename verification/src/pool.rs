//! The pool: its accounts, its invariant and its three transitions.
//!
//! A stake moves base tokens from the user to the vault and issues the same
//! number of receipt tokens to the user. An unstake pays base tokens out of
//! the vault and destroys the same number of the user's receipt tokens. Each
//! transition applies both of its halves or neither: the halves run on a copy
//! of the accounts, and the copy replaces the accounts only when both passed.
//!
//! The invariant, that the vault holds what the receipt mint has issued, is
//! tested on the way in. That it holds on the way out is proved.

use crate::address::Address;
use crate::derivation::{canonical, derive_address, derives, underivable, verify_derivation, Role};
use crate::error::{HostError, StakeError};
use crate::token::{burn, burn_failure, mint_to, mint_to_failure, transfer, transfer_failure, Mint, TokenAccount};
use vstd::prelude::*;

verus! {

/// What an instruction runs on: the program that runs it and its accounts.
#[derive(Clone, Copy, Debug)]
pub struct Context<T> {
    /// The address of the program. Every derivation is made under it.
    pub program_id: Address,
    /// The accounts that the caller handed in.
    pub accounts: T,
}

/// The seeds by which the program signs for an address that it derived.
#[derive(Clone, Copy, Debug, PartialEq, Eq)]
pub struct SignerSeeds {
    pub role: Role,
    pub base_token: Address,
    pub bump: u8,
}

impl SignerSeeds {
    /// Under `program_id` these seeds derive `signer`, so the program may
    /// act in its name.
    pub open spec fn sign_for(self, program_id: Address, signer: Address) -> bool {
        derives(program_id, self.role, self.base_token, self.bump, signer)
    }
}

/// The accounts of `initialize`.
#[derive(Clone, Copy, Debug, PartialEq, Eq)]
pub struct Initialize {
    /// The mint of the base token.
    pub x_token: Mint,
    /// The vault of the base token, once it exists.
    pub pool: Option<TokenAccount>,
    /// The receipt mint of the base token, once it exists.
    pub s_token: Option<Mint>,
}

/// The accounts of `stake` and of `unstake`.
#[derive(Clone, Copy, Debug, PartialEq, Eq)]
pub struct StakeUnstake {
    /// The receipt mint.
    pub s_token: Mint,
    /// The user's account of the base token.
    pub x_token_ata: TokenAccount,
    /// The user's account of the receipt token.
    pub s_token_ata: TokenAccount,
    /// The vault.
    pub pool: TokenAccount,
    /// The user, who signed the instruction.
    pub owner: Address,
}

impl StakeUnstake {
    /// The pool's invariant: the vault holds one base token for every receipt
    /// token in circulation.
    pub open spec fn backed(self) -> bool {
        self.pool.amount == self.s_token.supply
    }

    /// Both bumps derive the addresses they were supplied for: the receipt
    /// mint's and the vault's, each derived from the mint of the user's
    /// base-token account.
    pub open spec fn derivation_valid(self, program_id: Address, s_token_bump: u8, pool_bump: u8) -> bool {
        &&& derives(program_id, Role::ReceiptMint, self.x_token_ata.mint, s_token_bump, self.s_token.address)
        &&& derives(program_id, Role::Vault, self.x_token_ata.mint, pool_bump, self.pool.address)
    }

    /// The user owns both user accounts, and the vault is its own owner and
    /// the authority of the receipt mint.
    pub open spec fn authorized(self) -> bool {
        &&& self.x_token_ata.owner == self.owner
        &&& self.s_token_ata.owner == self.owner
        &&& self.pool.owner == self.pool.address
        &&& self.s_token.mint_authority == self.pool.address
    }

    /// The vault holds the token of the user's base-token account, and the
    /// user's receipt account holds the receipt token.
    pub open spec fn same_tokens(self) -> bool {
        &&& self.pool.mint == self.x_token_ata.mint
        &&& self.s_token_ata.mint == self.s_token.address
    }

    /// The seeds by which the program signs for the vault.
    pub open spec fn authority_seeds(self, pool_bump: u8) -> SignerSeeds {
        SignerSeeds { role: Role::Authority, base_token: self.x_token_ata.mint, bump: pool_bump }
    }

    /// The accounts after the user paid `amount` into the vault.
    pub open spec fn deposited(self, amount: u64) -> StakeUnstake {
        StakeUnstake {
            x_token_ata: self.x_token_ata.debited(amount),
            pool: self.pool.credited(amount),
            ..self
        }
    }

    /// The accounts after `amount` receipt tokens were issued to the user.
    pub open spec fn minted(self, amount: u64) -> StakeUnstake {
        StakeUnstake {
            s_token: self.s_token.issued(amount),
            s_token_ata: self.s_token_ata.credited(amount),
            ..self
        }
    }

    /// The accounts after the vault paid `amount` out to the user.
    pub open spec fn withdrawn(self, amount: u64) -> StakeUnstake {
        StakeUnstake {
            x_token_ata: self.x_token_ata.credited(amount),
            pool: self.pool.debited(amount),
            ..self
        }
    }

    /// The accounts after `amount` of the user's receipt tokens were
    /// destroyed.
    pub open spec fn burned(self, amount: u64) -> StakeUnstake {
        StakeUnstake {
            s_token: self.s_token.redeemed(amount),
            s_token_ata: self.s_token_ata.debited(amount),
            ..self
        }
    }

    /// The accounts after a stake of `amount`.
    pub open spec fn staked(self, amount: u64) -> StakeUnstake {
        self.deposited(amount).minted(amount)
    }

    /// The accounts after an unstake of `amount`.
    pub open spec fn unstaked(self, amount: u64) -> StakeUnstake {
        self.withdrawn(amount).burned(amount)
    }

    /// Why the program cannot sign for the vault with `seeds`, or else why
    /// the ledger refuses to issue `amount` receipt tokens to the user.
    pub open spec fn mint_failure(self, program_id: Address, seeds: SignerSeeds, amount: u64) -> Option<
        StakeError,
    > {
        if !seeds.sign_for(program_id, self.pool.address) {
            Some(StakeError::InvalidDerivation)
        } else {
            mint_to_failure(self.s_token, self.s_token_ata, self.pool.address, amount)
        }
    }

    /// Why the program cannot sign for the vault with `seeds`, or else why
    /// the vault cannot pay `amount` out to the user. A vault that holds less
    /// than it owes has broken the invariant.
    pub open spec fn from_pool_failure(self, program_id: Address, seeds: SignerSeeds, amount: u64) -> Option<
        StakeError,
    > {
        if !seeds.sign_for(program_id, self.pool.address) {
            Some(StakeError::InvalidDerivation)
        } else {
            match transfer_failure(self.pool, self.x_token_ata, self.pool.address, amount) {
                Some(StakeError::InsufficientFunds) => Some(StakeError::InvariantViolation),
                other => other,
            }
        }
    }

    /// What is wrong with the accounts and the arguments of a stake or an
    /// unstake before any balance is looked at. The checks come in this
    /// order, and the first that fails names the error.
    pub open spec fn rejection(self, program_id: Address, s_token_bump: u8, pool_bump: u8, amount: u64) -> Option<
        StakeError,
    > {
        if !self.derivation_valid(program_id, s_token_bump, pool_bump) {
            Some(StakeError::InvalidDerivation)
        } else if amount == 0 {
            Some(StakeError::InvalidAmount)
        } else if !self.authorized() {
            Some(StakeError::HostError(HostError::OwnerMismatch))
        } else if !self.same_tokens() {
            Some(StakeError::HostError(HostError::MintMismatch))
        } else if !self.backed() {
            Some(StakeError::InvariantViolation)
        } else {
            None
        }
    }

    /// Why a stake of `amount` fails, or `None` where it succeeds.
    pub open spec fn stake_failure(self, program_id: Address, s_token_bump: u8, pool_bump: u8, amount: u64) -> Option<
        StakeError,
    > {
        if self.rejection(program_id, s_token_bump, pool_bump, amount) is Some {
            self.rejection(program_id, s_token_bump, pool_bump, amount)
        } else if self.x_token_ata.amount < amount {
            Some(StakeError::InsufficientFunds)
        } else if self.pool.amount + amount > u64::MAX || self.s_token_ata.amount + amount > u64::MAX {
            Some(StakeError::HostError(HostError::Overflow))
        } else {
            None
        }
    }

    /// Why an unstake of `amount` fails, or `None` where it succeeds.
    pub open spec fn unstake_failure(
        self,
        program_id: Address,
        s_token_bump: u8,
        pool_bump: u8,
        amount: u64,
    ) -> Option<StakeError> {
        if self.rejection(program_id, s_token_bump, pool_bump, amount) is Some {
            self.rejection(program_id, s_token_bump, pool_bump, amount)
        } else if self.s_token_ata.amount < amount {
            Some(StakeError::InsufficientFunds)
        } else if self.pool.amount < amount {
            Some(StakeError::InvariantViolation)
        } else if self.x_token_ata.amount + amount > u64::MAX {
            Some(StakeError::HostError(HostError::Overflow))
        } else {
            None
        }
    }

    /// The accounts as a stake of `amount` leaves them: staked where it
    /// succeeds, untouched where it fails.
    pub open spec fn after_stake(self, program_id: Address, s_token_bump: u8, pool_bump: u8, amount: u64) -> StakeUnstake {
        if self.stake_failure(program_id, s_token_bump, pool_bump, amount) is Some {
            self
        } else {
            self.staked(amount)
        }
    }

    /// The accounts as an unstake of `amount` leaves them: unstaked where it
    /// succeeds, untouched where it fails.
    pub open spec fn after_unstake(self, program_id: Address, s_token_bump: u8, pool_bump: u8, amount: u64) -> StakeUnstake {
        if self.unstake_failure(program_id, s_token_bump, pool_bump, amount) is Some {
            self
        } else {
            self.unstaked(amount)
        }
    }

    /// The seeds by which the program signs for the vault: the authority's
    /// tag, the base token and the vault's bump.
    pub fn signer_seeds(&self, pool_bump: u8) -> (seeds: SignerSeeds)
        ensures
            seeds == self.authority_seeds(pool_bump),
    {
        SignerSeeds { role: Role::Authority, base_token: self.x_token_ata.mint, bump: pool_bump }
    }

    /// Whether the vault holds exactly what the receipt mint has issued.
    pub fn is_backed(&self) -> (backed: bool)
        ensures
            backed == self.backed(),
    {
        self.pool.amount == self.s_token.supply
    }

    /// Checks the two bumps, then the amount, then who controls the
    /// accounts, then which tokens they hold, then the invariant.
    pub fn check(&self, program_id: &Address, s_token_bump: u8, pool_bump: u8, amount: u64) -> (checked: Result<
        (),
        StakeError,
    >)
        ensures
            match self.rejection(*program_id, s_token_bump, pool_bump, amount) {
                Some(error) => checked == Err::<(), StakeError>(error),
                None => checked is Ok,
            },
    {
        let base_token = self.x_token_ata.mint;
        verify_derivation(program_id, Role::ReceiptMint, &base_token, s_token_bump, &self.s_token.address)?;
        verify_derivation(program_id, Role::Vault, &base_token, pool_bump, &self.pool.address)?;
        if amount == 0 {
            return Err(StakeError::InvalidAmount);
        }
        if !(self.x_token_ata.owner == self.owner) || !(self.s_token_ata.owner == self.owner) || !(
        self.pool.owner == self.pool.address) || !(self.s_token.mint_authority == self.pool.address) {
            return Err(StakeError::HostError(HostError::OwnerMismatch));
        }
        if !(self.pool.mint == self.x_token_ata.mint) || !(self.s_token_ata.mint == self.s_token.address) {
            return Err(StakeError::HostError(HostError::MintMismatch));
        }
        if !self.is_backed() {
            return Err(StakeError::InvariantViolation);
        }
        Ok(())
    }
}

impl Initialize {
    /// Why the pool of the base token cannot be created, or `None` where it
    /// can: it exists already, in whole or in part, or no bump derives an
    /// address for its vault or for its receipt mint.
    pub open spec fn initialize_failure(self, program_id: Address) -> Option<StakeError> {
        if self.pool is Some || self.s_token is Some {
            Some(StakeError::AlreadyInitialized)
        } else if underivable(program_id, Role::Vault, self.x_token.address) || underivable(
            program_id,
            Role::ReceiptMint,
            self.x_token.address,
        ) {
            Some(StakeError::InvalidDerivation)
        } else {
            None
        }
    }

    /// These accounts hold the fresh pool of the base token of `before`: an
    /// empty vault and a receipt mint without supply, each at the address
    /// that its canonical bump derives, both under the vault's authority,
    /// and the receipt token with the decimals of the base token.
    pub open spec fn created_from(self, program_id: Address, before: Initialize) -> bool {
        &&& self.x_token == before.x_token
        &&& self.pool matches Some(pool)
        &&& self.s_token matches Some(s_token)
        &&& exists|bump: u8| canonical(program_id, Role::Vault, before.x_token.address, pool.address, bump)
        &&& exists|bump: u8|
            canonical(program_id, Role::ReceiptMint, before.x_token.address, s_token.address, bump)
        &&& pool == TokenAccount {
            address: pool.address,
            mint: before.x_token.address,
            owner: pool.address,
            amount: 0,
        }
        &&& s_token == Mint {
            address: s_token.address,
            mint_authority: pool.address,
            decimals: before.x_token.decimals,
            supply: 0,
        }
    }
}

/// Creates the vault and the receipt mint of the base token `x_token`, once:
/// an empty vault and a mint without supply, at their canonical addresses,
/// both under the vault's authority, the receipt token with the decimals of
/// the base token. Where either exists already the call fails with
/// `AlreadyInitialized`; where either has no address, with
/// `InvalidDerivation`. A call that fails changes nothing.
pub fn initialize(ctx: &mut Context<Initialize>) -> (done: Result<(), StakeError>)
    ensures
        final(ctx).program_id == old(ctx).program_id,
        match old(ctx).accounts.initialize_failure(old(ctx).program_id) {
            Some(error) => done == Err::<(), StakeError>(error) && final(ctx).accounts == old(ctx).accounts,
            None => done is Ok && final(ctx).accounts.created_from(old(ctx).program_id, old(ctx).accounts),
        },
{
    if ctx.accounts.pool.is_some() || ctx.accounts.s_token.is_some() {
        return Err(StakeError::AlreadyInitialized);
    }
    let base_token = ctx.accounts.x_token.address;
    let vault = match derive_address(&ctx.program_id, Role::Vault, &base_token) {
        Some((address, _)) => address,
        None => {
            return Err(StakeError::InvalidDerivation);
        },
    };
    let receipt_mint = match derive_address(&ctx.program_id, Role::ReceiptMint, &base_token) {
        Some((address, _)) => address,
        None => {
            return Err(StakeError::InvalidDerivation);
        },
    };
    ctx.accounts.pool = Some(TokenAccount { address: vault, mint: base_token, owner: vault, amount: 0 });
    ctx.accounts.s_token = Some(
        Mint {
            address: receipt_mint,
            mint_authority: vault,
            decimals: ctx.accounts.x_token.decimals,
            supply: 0,
        },
    );
    Ok(())
}

/// Stakes `amount`: the user pays `amount` of the base token into the vault
/// and receives `amount` of the receipt token.
///
/// The call fails, and changes nothing, for the first of these that holds: a
/// bump that does not derive its address (`InvalidDerivation`), an amount of
/// zero (`InvalidAmount`), an account under the wrong owner or of the wrong
/// token (`HostError`), a vault that differs from the supply
/// (`InvariantViolation`), a user with less than `amount`
/// (`InsufficientFunds`), a vault or a receipt account that cannot hold
/// `amount` more (`HostError`).
pub fn stake(ctx: &mut Context<StakeUnstake>, s_token_bump: u8, pool_bump: u8, amount: u64) -> (done: Result<
    (),
    StakeError,
>)
    ensures
        final(ctx).program_id == old(ctx).program_id,
        match old(ctx).accounts.stake_failure(old(ctx).program_id, s_token_bump, pool_bump, amount) {
            Some(error) => done == Err::<(), StakeError>(error),
            None => done is Ok,
        },
        final(ctx).accounts == old(ctx).accounts.after_stake(
            old(ctx).program_id,
            s_token_bump,
            pool_bump,
            amount,
        ),
        done is Err ==> final(ctx).accounts == old(ctx).accounts,
        old(ctx).accounts.backed() ==> final(ctx).accounts.backed(),
        done is Ok ==> final(ctx).accounts.backed(),
{
    ctx.accounts.check(&ctx.program_id, s_token_bump, pool_bump, amount)?;
    let seeds = ctx.accounts.signer_seeds(pool_bump);
    let mut staged = ctx.accounts;
    transfer_to_pool(&mut staged, amount)?;
    s_token_mint(&mut staged, &ctx.program_id, &seeds, amount)?;
    ctx.accounts = staged;
    Ok(())
}

/// Unstakes `amount`: the vault pays `amount` of the base token out to the
/// user, and `amount` of the user's receipt token is destroyed.
///
/// The call fails, and changes nothing, for the first of these that holds: a
/// bump that does not derive its address (`InvalidDerivation`), an amount of
/// zero (`InvalidAmount`), an account under the wrong owner or of the wrong
/// token (`HostError`), a vault that differs from the supply
/// (`InvariantViolation`), a user with fewer than `amount` receipts
/// (`InsufficientFunds`), a vault with less than `amount`
/// (`InvariantViolation`), a base-token account that cannot hold `amount`
/// more (`HostError`).
pub fn unstake(ctx: &mut Context<StakeUnstake>, s_token_bump: u8, pool_bump: u8, amount: u64) -> (done: Result<
    (),
    StakeError,
>)
    ensures
        final(ctx).program_id == old(ctx).program_id,
        match old(ctx).accounts.unstake_failure(old(ctx).program_id, s_token_bump, pool_bump, amount) {
            Some(error) => done == Err::<(), StakeError>(error),
            None => done is Ok,
        },
        final(ctx).accounts == old(ctx).accounts.after_unstake(
            old(ctx).program_id,
            s_token_bump,
            pool_bump,
            amount,
        ),
        done is Err ==> final(ctx).accounts == old(ctx).accounts,
        old(ctx).accounts.backed() ==> final(ctx).accounts.backed(),
        done is Ok ==> final(ctx).accounts.backed(),
{
    ctx.accounts.check(&ctx.program_id, s_token_bump, pool_bump, amount)?;
    // The receipts are counted before the vault pays anything out.
    if ctx.accounts.s_token_ata.amount < amount {
        return Err(StakeError::InsufficientFunds);
    }
    let seeds = ctx.accounts.signer_seeds(pool_bump);
    let mut staged = ctx.accounts;
    transfer_from_pool(&mut staged, &ctx.program_id, &seeds, amount)?;
    s_token_burn(&mut staged, amount)?;
    ctx.accounts = staged;
    Ok(())
}

/// The first half of a stake: the user pays `amount` of the base token into
/// the vault, and signs for it.
pub fn transfer_to_pool(accounts: &mut StakeUnstake, amount: u64) -> (done: Result<(), StakeError>)
    ensures
        match transfer_failure(old(accounts).x_token_ata, old(accounts).pool, old(accounts).owner, amount) {
            Some(error) => done == Err::<(), StakeError>(error) && *final(accounts) == *old(accounts),
            None => done is Ok && *final(accounts) == old(accounts).deposited(amount),
        },
{
    let owner = accounts.owner;
    transfer(&mut accounts.x_token_ata, &mut accounts.pool, &owner, amount)
}

/// The first half of an unstake: the vault pays `amount` of the base token
/// out to the user. The program signs for the vault with `seeds`, which are
/// derived anew and held against the vault's address.
pub fn transfer_from_pool(accounts: &mut StakeUnstake, program_id: &Address, seeds: &SignerSeeds, amount: u64) -> (done:
    Result<(), StakeError>)
    ensures
        match old(accounts).from_pool_failure(*program_id, *seeds, amount) {
            Some(error) => done == Err::<(), StakeError>(error) && *final(accounts) == *old(accounts),
            None => done is Ok && *final(accounts) == old(accounts).withdrawn(amount),
        },
{
    let authority = accounts.pool.address;
    verify_derivation(program_id, seeds.role, &seeds.base_token, seeds.bump, &authority)?;
    match transfer(&mut accounts.pool, &mut accounts.x_token_ata, &authority, amount) {
        Err(StakeError::InsufficientFunds) => Err(StakeError::InvariantViolation),
        other => other,
    }
}

/// The second half of a stake: `amount` receipt tokens are issued to the
/// user. The program signs for the vault, the mint's authority, with `seeds`,
/// which are derived anew and held against the vault's address.
pub fn s_token_mint(accounts: &mut StakeUnstake, program_id: &Address, seeds: &SignerSeeds, amount: u64) -> (done:
    Result<(), StakeError>)
    ensures
        match old(accounts).mint_failure(*program_id, *seeds, amount) {
            Some(error) => done == Err::<(), StakeError>(error) && *final(accounts) == *old(accounts),
            None => done is Ok && *final(accounts) == old(accounts).minted(amount),
        },
{
    let authority = accounts.pool.address;
    verify_derivation(program_id, seeds.role, &seeds.base_token, seeds.bump, &authority)?;
    mint_to(&mut accounts.s_token, &mut accounts.s_token_ata, &authority, amount)
}

/// The second half of an unstake: `amount` of the user's receipt tokens are
/// destroyed, and the user signs for it.
pub fn s_token_burn(accounts: &mut StakeUnstake, amount: u64) -> (done: Result<(), StakeError>)
    ensures
        match burn_failure(old(accounts).s_token, old(accounts).s_token_ata, old(accounts).owner, amount) {
            Some(error) => done == Err::<(), StakeError>(error) && *final(accounts) == *old(accounts),
            None => done is Ok && *final(accounts) == old(accounts).burned(amount),
        },
{
    let owner = accounts.owner;
    burn(&mut accounts.s_token, &mut accounts.s_token_ata, &owner, amount)
}

} // verus!
