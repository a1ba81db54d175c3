//! What holds of the pool whatever the calls are.

use crate::address::Address;
use crate::derivation::{canonical, derived_address, derives, seeds, Role};
use crate::error::StakeError;
use crate::pool::{Initialize, StakeUnstake};
use crate::token::{burn_failure, transfer_failure, Mint, TokenAccount};
use vstd::prelude::*;

verus! {

/// Which of the two transitions a call asks for.
#[derive(Clone, Copy, Debug)]
pub enum Transition {
    Stake,
    Unstake,
}

/// One call on a pool: the transition, the user's two accounts, the user,
/// and the arguments. The vault and the receipt mint are the pool's, and
/// are not the caller's to choose.
#[derive(Clone, Copy, Debug)]
pub struct Call {
    pub transition: Transition,
    pub x_token_ata: TokenAccount,
    pub s_token_ata: TokenAccount,
    pub owner: Address,
    pub s_token_bump: u8,
    pub pool_bump: u8,
    pub amount: u64,
}

impl Call {
    /// The accounts of this call on the pool made of `s_token` and `pool`.
    pub open spec fn accounts(self, s_token: Mint, pool: TokenAccount) -> StakeUnstake {
        StakeUnstake {
            s_token,
            x_token_ata: self.x_token_ata,
            s_token_ata: self.s_token_ata,
            pool,
            owner: self.owner,
        }
    }

    /// The accounts as this call leaves them.
    pub open spec fn after(self, program_id: Address, s_token: Mint, pool: TokenAccount) -> StakeUnstake {
        match self.transition {
            Transition::Stake => self.accounts(s_token, pool).after_stake(
                program_id,
                self.s_token_bump,
                self.pool_bump,
                self.amount,
            ),
            Transition::Unstake => self.accounts(s_token, pool).after_unstake(
                program_id,
                self.s_token_bump,
                self.pool_bump,
                self.amount,
            ),
        }
    }
}

/// The receipt mint and the vault after `calls`, one after the other, from
/// any users, each with accounts of its own.
pub open spec fn pool_after(program_id: Address, s_token: Mint, pool: TokenAccount, calls: Seq<Call>) -> (
    Mint,
    TokenAccount,
)
    decreases calls.len(),
{
    if calls.len() == 0 {
        (s_token, pool)
    } else {
        let (mint_before, vault_before) = pool_after(program_id, s_token, pool, calls.drop_last());
        let accounts = calls.last().after(program_id, mint_before, vault_before);
        (accounts.s_token, accounts.pool)
    }
}

/// After any sequence of calls on a pool whose vault held what its mint had
/// issued, the vault holds what the mint has issued.
pub proof fn backing_survives(program_id: Address, s_token: Mint, pool: TokenAccount, calls: Seq<Call>)
    requires
        pool.amount == s_token.supply,
    ensures
        pool_after(program_id, s_token, pool, calls).1.amount == pool_after(
            program_id,
            s_token,
            pool,
            calls,
        ).0.supply,
    decreases calls.len(),
{
    if calls.len() > 0 {
        backing_survives(program_id, s_token, pool, calls.drop_last());
    }
}

/// The invariant holds after every call of a sequence: whatever the calls
/// are, whoever makes them and whether they succeed or fail, the vault's
/// balance equals the receipt mint's supply after each of them.
pub proof fn invariant_holds_after_every_call(
    program_id: Address,
    s_token: Mint,
    pool: TokenAccount,
    calls: Seq<Call>,
)
    requires
        pool.amount == s_token.supply,
    ensures
        forall|n: int|
            0 <= n <= calls.len() ==> (#[trigger] pool_after(
                program_id,
                s_token,
                pool,
                calls.take(n),
            )).1.amount == pool_after(program_id, s_token, pool, calls.take(n)).0.supply,
{
    assert forall|n: int| 0 <= n <= calls.len() implies (#[trigger] pool_after(
        program_id,
        s_token,
        pool,
        calls.take(n),
    )).1.amount == pool_after(program_id, s_token, pool, calls.take(n)).0.supply by {
        backing_survives(program_id, s_token, pool, calls.take(n));
    }
}

/// A stake that succeeds can be undone at once: the unstake of the same
/// amount succeeds too, and leaves every account as it was before the
/// stake, to the last unit.
pub proof fn unstake_undoes_stake(
    program_id: Address,
    accounts: StakeUnstake,
    s_token_bump: u8,
    pool_bump: u8,
    amount: u64,
)
    requires
        accounts.stake_failure(program_id, s_token_bump, pool_bump, amount) is None,
    ensures
        accounts.staked(amount).unstake_failure(program_id, s_token_bump, pool_bump, amount) is None,
        accounts.staked(amount).unstaked(amount) == accounts,
        accounts.after_stake(program_id, s_token_bump, pool_bump, amount).after_unstake(
            program_id,
            s_token_bump,
            pool_bump,
            amount,
        ) == accounts,
{
}

/// A stake whose first half would pass and whose second half is refused
/// fails as a whole, and leaves no trace of the first half: the vault and
/// the user's base-token account are as they were.
pub proof fn refused_mint_undoes_deposit(
    program_id: Address,
    accounts: StakeUnstake,
    s_token_bump: u8,
    pool_bump: u8,
    amount: u64,
)
    requires
        transfer_failure(accounts.x_token_ata, accounts.pool, accounts.owner, amount) is None,
        accounts.deposited(amount).mint_failure(program_id, accounts.authority_seeds(pool_bump), amount) is Some,
    ensures
        accounts.stake_failure(program_id, s_token_bump, pool_bump, amount) is Some,
        accounts.after_stake(program_id, s_token_bump, pool_bump, amount) == accounts,
{
}

/// An unstake whose first half would pass and whose second half is refused
/// fails as a whole, and leaves no trace of the first half.
pub proof fn refused_burn_undoes_withdrawal(
    program_id: Address,
    accounts: StakeUnstake,
    s_token_bump: u8,
    pool_bump: u8,
    amount: u64,
)
    requires
        accounts.from_pool_failure(program_id, accounts.authority_seeds(pool_bump), amount) is None,
        burn_failure(
            accounts.withdrawn(amount).s_token,
            accounts.withdrawn(amount).s_token_ata,
            accounts.owner,
            amount,
        ) is Some,
    ensures
        accounts.unstake_failure(program_id, s_token_bump, pool_bump, amount) is Some,
        accounts.after_unstake(program_id, s_token_bump, pool_bump, amount) == accounts,
{
}

/// A bump that does not derive the address it is supplied for has both
/// transitions rejected with `InvalidDerivation`, whatever else holds, and
/// nothing changes.
pub proof fn wrong_bump_is_rejected(
    program_id: Address,
    accounts: StakeUnstake,
    s_token_bump: u8,
    pool_bump: u8,
    amount: u64,
)
    requires
        !derives(program_id, Role::ReceiptMint, accounts.x_token_ata.mint, s_token_bump, accounts.s_token.address)
            || !derives(program_id, Role::Vault, accounts.x_token_ata.mint, pool_bump, accounts.pool.address),
    ensures
        accounts.stake_failure(program_id, s_token_bump, pool_bump, amount) == Some(
            StakeError::InvalidDerivation,
        ),
        accounts.unstake_failure(program_id, s_token_bump, pool_bump, amount) == Some(
            StakeError::InvalidDerivation,
        ),
        accounts.after_stake(program_id, s_token_bump, pool_bump, amount) == accounts,
        accounts.after_unstake(program_id, s_token_bump, pool_bump, amount) == accounts,
{
}

/// An amount of zero has both transitions fail and nothing change. The
/// error is `InvalidAmount` where the two bumps are right; the bumps are
/// looked at first.
pub proof fn zero_amount_is_rejected(program_id: Address, accounts: StakeUnstake, s_token_bump: u8, pool_bump: u8)
    ensures
        accounts.stake_failure(program_id, s_token_bump, pool_bump, 0) is Some,
        accounts.unstake_failure(program_id, s_token_bump, pool_bump, 0) is Some,
        accounts.after_stake(program_id, s_token_bump, pool_bump, 0) == accounts,
        accounts.after_unstake(program_id, s_token_bump, pool_bump, 0) == accounts,
        accounts.derivation_valid(program_id, s_token_bump, pool_bump) ==> {
            &&& accounts.stake_failure(program_id, s_token_bump, pool_bump, 0) == Some(StakeError::InvalidAmount)
            &&& accounts.unstake_failure(program_id, s_token_bump, pool_bump, 0) == Some(
                StakeError::InvalidAmount,
            )
        },
{
}

/// Deriving again gives the same: one base token and one role have at most
/// one canonical address and bump under a program.
pub proof fn canonical_is_unique(
    program_id: Address,
    role: Role,
    base_token: Address,
    first: Address,
    first_bump: u8,
    second: Address,
    second_bump: u8,
)
    requires
        canonical(program_id, role, base_token, first, first_bump),
        canonical(program_id, role, base_token, second, second_bump),
    ensures
        first == second,
        first_bump == second_bump,
{
    assert(derived_address(program_id, role, base_token, first_bump) is Some);
    assert(derived_address(program_id, role, base_token, second_bump) is Some);
    Address::view_injective(first, second);
}

/// The vault and the receipt mint of one base token are derived from
/// different seeds, whatever the bumps, and the authority from the vault's.
pub proof fn roles_keep_apart(base_token: Address, vault_bump: u8, mint_bump: u8)
    ensures
        seeds(Role::Vault, base_token, vault_bump) != seeds(Role::ReceiptMint, base_token, mint_bump),
        seeds(Role::Authority, base_token, vault_bump) == seeds(Role::Vault, base_token, vault_bump),
{
    assert(seeds(Role::Vault, base_token, vault_bump)[0].len() == 4);
    assert(seeds(Role::ReceiptMint, base_token, mint_bump)[0].len() == 6);
}

/// The pool that `initialize` created passes every check of a first call:
/// with the canonical bumps, and a user who owns an account of the base
/// token and one of the receipt token, no stake or unstake of a positive
/// amount is rejected before the balances are looked at.
pub proof fn created_pool_is_accepted(
    program_id: Address,
    before: Initialize,
    created: Initialize,
    call: Call,
)
    requires
        created.created_from(program_id, before),
        canonical(program_id, Role::Vault, before.x_token.address, created.pool->0.address, call.pool_bump),
        canonical(
            program_id,
            Role::ReceiptMint,
            before.x_token.address,
            created.s_token->0.address,
            call.s_token_bump,
        ),
        call.x_token_ata.mint == before.x_token.address,
        call.s_token_ata.mint == created.s_token->0.address,
        call.x_token_ata.owner == call.owner,
        call.s_token_ata.owner == call.owner,
        call.amount > 0,
    ensures
        call.accounts(created.s_token->0, created.pool->0).rejection(
            program_id,
            call.s_token_bump,
            call.pool_bump,
            call.amount,
        ) is None,
{
}

} // verus!
