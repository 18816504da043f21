use vstd::prelude::*;

use crate::error::{InstructionError, MintError, TransferHookError, VaultError};
use crate::pubkey::Pubkey;
use crate::state::{find_entry, lemma_find_entry, Vault, Whitelist, WhitelistEntry};

verus! {

/// The seed of the vault authority's program-derived address: the bytes of "vault_authority".
pub open spec fn vault_authority_seed() -> Seq<u8> {
    seq![118u8, 97, 117, 108, 116, 95, 97, 117, 116, 104, 111, 114, 105, 116, 121]
}

/// The entries after `amount` is added to the entry at position `i`.
pub open spec fn credited(entries: Seq<WhitelistEntry>, i: int, amount: u64) -> Seq<WhitelistEntry> {
    entries.update(i, WhitelistEntry { user: entries[i].user, amount: (entries[i].amount + amount) as u64 })
}

/// The entries after `amount` is taken from the entry at position `i`.
pub open spec fn debited(entries: Seq<WhitelistEntry>, i: int, amount: u64) -> Seq<WhitelistEntry> {
    entries.update(i, WhitelistEntry { user: entries[i].user, amount: (entries[i].amount - amount) as u64 })
}

/// What a deposit of `amount` by `user` makes of the whitelist, once its token transfer succeeded:
/// the error it fails with, or the new entries.
pub open spec fn deposit_outcome(entries: Seq<WhitelistEntry>, user: Pubkey, amount: u64) -> Result<
    Seq<WhitelistEntry>,
    InstructionError,
> {
    if amount == 0 {
        Err(InstructionError::Vault(VaultError::InsufficientBalance))
    } else {
        match find_entry(entries, user) {
            None => Err(InstructionError::TransferHook(TransferHookError::UserNotWhitelisted)),
            Some(i) => if entries[i].amount + amount > u64::MAX {
                Err(InstructionError::TransferHook(TransferHookError::MathOverflow))
            } else {
                Ok(credited(entries, i, amount))
            },
        }
    }
}

/// What a withdrawal of `amount` by `user` makes of the whitelist, once its token transfer
/// succeeded: the error it fails with, or the new entries.
pub open spec fn withdraw_outcome(entries: Seq<WhitelistEntry>, user: Pubkey, amount: u64) -> Result<
    Seq<WhitelistEntry>,
    InstructionError,
> {
    if amount == 0 {
        Err(InstructionError::Vault(VaultError::InsufficientBalance))
    } else {
        match find_entry(entries, user) {
            None => Err(InstructionError::TransferHook(TransferHookError::UserNotWhitelisted)),
            Some(i) => if entries[i].amount < amount {
                Err(InstructionError::TransferHook(TransferHookError::InsufficientWhitelistedBalance))
            } else {
                Ok(debited(entries, i, amount))
            },
        }
    }
}

/// A checked token transfer to be made between two token accounts.
#[derive(Clone, Debug, PartialEq, Eq)]
pub struct TokenTransfer {
    pub from: Pubkey,
    pub to: Pubkey,
    pub mint: Pubkey,
    pub authority: Pubkey,
    pub amount: u64,
    pub decimals: u8,
    /// Seeds with which the program signs for `authority`; empty when the authority signs itself.
    pub signer_seeds: Vec<Vec<u8>>,
}

/// A mint of new tokens to be made.
#[derive(Clone, Debug, PartialEq, Eq)]
pub struct MintTo {
    pub mint: Pubkey,
    pub to: Pubkey,
    pub authority: Pubkey,
    pub amount: u64,
    /// Seeds with which the program signs for `authority`.
    pub signer_seeds: Vec<Vec<u8>>,
}

/// A deposit that passed its checks: the transfer to make, and the entry to credit after it.
#[derive(Clone, Debug, PartialEq, Eq)]
pub struct PendingDeposit {
    pub entry_index: usize,
    pub transfer: TokenTransfer,
}

/// A withdrawal that passed its checks: the transfer to make, and the entry to debit after it.
#[derive(Clone, Debug, PartialEq, Eq)]
pub struct PendingWithdrawal {
    pub entry_index: usize,
    pub transfer: TokenTransfer,
}

/// The bump seeds found for the program-derived accounts of a deposit.
#[derive(Clone, Copy, Debug, PartialEq, Eq)]
pub struct DepositBumps {
    pub vault_authority: u8,
    pub vault: u8,
    pub whitelist: u8,
}

/// The bump seeds found for the program-derived accounts of a withdrawal.
#[derive(Clone, Copy, Debug, PartialEq, Eq)]
pub struct WithdrawBumps {
    pub vault_authority: u8,
    pub vault: u8,
    pub whitelist: u8,
}

/// The bump seeds found for the program-derived accounts of a mint.
#[derive(Clone, Copy, Debug, PartialEq, Eq)]
pub struct MintTokenBumps {
    pub vault_authority: u8,
    pub vault: u8,
}

/// The bump seeds found for the program-derived accounts of the vault's creation.
#[derive(Clone, Copy, Debug, PartialEq, Eq)]
pub struct InitializeVaultBumps {
    pub vault: u8,
    pub vault_authority: u8,
    pub token_account: u8,
}

/// The accounts' constraint that the vault holds the given mint; fails with `InvalidVaultMint`.
pub fn check_vault_mint(vault: &Vault, mint: &Pubkey) -> (r: Result<(), InstructionError>)
    ensures
        r == if vault.mint == *mint {
            Ok::<(), InstructionError>(())
        } else {
            Err::<(), InstructionError>(InstructionError::Vault(VaultError::InvalidVaultMint))
        },
{
    if vault.mint.same_as(mint) {
        Ok(())
    } else {
        Err(InstructionError::Vault(VaultError::InvalidVaultMint))
    }
}

/// The seeds with which the program signs for the vault authority: `["vault_authority", [bump]]`.
fn vault_authority_signer_seeds(bump: u8) -> (seeds: Vec<Vec<u8>>)
    ensures
        seeds@.len() == 2,
        seeds@[0]@ == vault_authority_seed(),
        seeds@[1]@ == seq![bump],
{
    let seed: Vec<u8> = vec![118u8, 97, 117, 108, 116, 95, 97, 117, 116, 104, 111, 114, 105, 116, 121];
    let bump_seed: Vec<u8> = vec![bump];
    vec![seed, bump_seed]
}

/// Adds `amount` to entry `i`; fails with `MathOverflow`, changing nothing, when the sum overflows.
fn credit_entry(whitelist: &mut Whitelist, i: usize, amount: u64) -> (r: Result<(), InstructionError>)
    requires
        i < old(whitelist).address.len(),
    ensures
        final(whitelist).bump == old(whitelist).bump,
        old(whitelist).address@[i as int].amount + amount <= u64::MAX ==> r is Ok
            && final(whitelist).address@ == credited(old(whitelist).address@, i as int, amount),
        old(whitelist).address@[i as int].amount + amount > u64::MAX ==> r == Err::<(), InstructionError>(
            InstructionError::TransferHook(TransferHookError::MathOverflow),
        ) && final(whitelist).address@ == old(whitelist).address@,
{
    let entry = whitelist.address[i];
    match entry.amount.checked_add(amount) {
        Some(new_amount) => {
            whitelist.address.set(i, WhitelistEntry { user: entry.user, amount: new_amount });
            Ok(())
        },
        None => Err(InstructionError::TransferHook(TransferHookError::MathOverflow)),
    }
}

/// Takes `amount` from entry `i`; fails with `MathOverflow`, changing nothing, when it would go below zero.
fn debit_entry(whitelist: &mut Whitelist, i: usize, amount: u64) -> (r: Result<(), InstructionError>)
    requires
        i < old(whitelist).address.len(),
    ensures
        final(whitelist).bump == old(whitelist).bump,
        old(whitelist).address@[i as int].amount >= amount ==> r is Ok
            && final(whitelist).address@ == debited(old(whitelist).address@, i as int, amount),
        old(whitelist).address@[i as int].amount < amount ==> r == Err::<(), InstructionError>(
            InstructionError::TransferHook(TransferHookError::MathOverflow),
        ) && final(whitelist).address@ == old(whitelist).address@,
{
    let entry = whitelist.address[i];
    match entry.amount.checked_sub(amount) {
        Some(new_amount) => {
            whitelist.address.set(i, WhitelistEntry { user: entry.user, amount: new_amount });
            Ok(())
        },
        None => Err(InstructionError::TransferHook(TransferHookError::MathOverflow)),
    }
}

/// The accounts of a deposit into the vault by a whitelisted user.
#[derive(Clone, Debug)]
pub struct Deposit {
    pub user: Pubkey,
    pub mint: Pubkey,
    pub mint_decimals: u8,
    pub user_token_account: Pubkey,
    pub vault_authority: Pubkey,
    pub vault: Vault,
    pub vault_token_account: Pubkey,
    pub whitelist: Whitelist,
}

impl Deposit {
    /// Checks a deposit of `amount`: it must be positive (else `InsufficientBalance`) and the
    /// user whitelisted (else `UserNotWhitelisted`). Gives the transfer from the user's token
    /// account to the vault's, signed by the user, and the entry to credit once it is done
    /// (`complete_deposit`).
    pub fn deposit(&self, amount: u64, bumps: &DepositBumps) -> (r: Result<PendingDeposit, InstructionError>)
        ensures
            amount == 0 ==> r == Err::<PendingDeposit, InstructionError>(
                InstructionError::Vault(VaultError::InsufficientBalance),
            ),
            amount > 0 ==> match find_entry(self.whitelist.address@, self.user) {
                None => r == Err::<PendingDeposit, InstructionError>(
                    InstructionError::TransferHook(TransferHookError::UserNotWhitelisted),
                ),
                Some(i) => (r matches Ok(p) && {
                    &&& p.entry_index == i
                    &&& p.transfer.from == self.user_token_account
                    &&& p.transfer.to == self.vault_token_account
                    &&& p.transfer.mint == self.mint
                    &&& p.transfer.authority == self.user
                    &&& p.transfer.amount == amount
                    &&& p.transfer.decimals == self.mint_decimals
                    &&& p.transfer.signer_seeds@.len() == 0
                }),
            },
    {
        if amount == 0 {
            return Err(InstructionError::Vault(VaultError::InsufficientBalance));
        }
        let entry_index = match self.whitelist.position(&self.user) {
            Some(i) => i,
            None => {
                return Err(InstructionError::TransferHook(TransferHookError::UserNotWhitelisted));
            },
        };
        let transfer = TokenTransfer {
            from: self.user_token_account,
            to: self.vault_token_account,
            mint: self.mint,
            authority: self.user,
            amount,
            decimals: self.mint_decimals,
            signer_seeds: Vec::new(),
        };
        Ok(PendingDeposit { entry_index, transfer })
    }

    /// Credits the deposited amount to the user's entry once the transfer is done. Fails with
    /// `MathOverflow`, changing nothing, when the recorded amount would overflow.
    pub fn complete_deposit(&mut self, pending: &PendingDeposit) -> (r: Result<(), InstructionError>)
        requires
            pending.entry_index < old(self).whitelist.address.len(),
        ensures
            ({
                let entries = old(self).whitelist.address@;
                let i = pending.entry_index as int;
                let amount = pending.transfer.amount;
                &&& entries[i].amount + amount <= u64::MAX ==> r is Ok
                    && final(self).whitelist.address@ == credited(entries, i, amount)
                &&& entries[i].amount + amount > u64::MAX ==> r == Err::<(), InstructionError>(
                    InstructionError::TransferHook(TransferHookError::MathOverflow),
                ) && final(self).whitelist.address@ == entries
                &&& amount > 0 && find_entry(entries, old(self).user) == Some(i) ==> match deposit_outcome(entries, old(self).user, amount) {
                    Ok(s) => r is Ok && final(self).whitelist.address@ == s,
                    Err(e) => r == Err::<(), InstructionError>(e) && final(self).whitelist.address@ == entries,
                }
            }),
            final(self).whitelist.bump == old(self).whitelist.bump,
            final(self).user == old(self).user,
            final(self).mint == old(self).mint,
            final(self).mint_decimals == old(self).mint_decimals,
            final(self).user_token_account == old(self).user_token_account,
            final(self).vault_authority == old(self).vault_authority,
            final(self).vault == old(self).vault,
            final(self).vault_token_account == old(self).vault_token_account,
    {
        credit_entry(&mut self.whitelist, pending.entry_index, pending.transfer.amount)
    }
}

/// The accounts of a withdrawal from the vault by a whitelisted user.
#[derive(Clone, Debug)]
pub struct Withdraw {
    pub user: Pubkey,
    pub mint: Pubkey,
    pub mint_decimals: u8,
    pub user_token_account: Pubkey,
    pub vault_authority: Pubkey,
    pub vault: Vault,
    pub vault_token_account: Pubkey,
    pub whitelist: Whitelist,
}

impl Withdraw {
    /// Checks a withdrawal of `amount`: it must be positive (else `InsufficientBalance`), the
    /// user whitelisted (else `UserNotWhitelisted`) and the user's recorded amount at least
    /// `amount` (else `InsufficientWhitelistedBalance`). Gives the transfer from the vault's token
    /// account to the user's, signed by the vault authority with the seeds
    /// `["vault_authority", [bump]]`, and the entry to debit once it is done (`complete_withdrawal`).
    pub fn withdraw(&self, amount: u64, bumps: &WithdrawBumps) -> (r: Result<PendingWithdrawal, InstructionError>)
        ensures
            amount == 0 ==> r == Err::<PendingWithdrawal, InstructionError>(
                InstructionError::Vault(VaultError::InsufficientBalance),
            ),
            amount > 0 ==> match find_entry(self.whitelist.address@, self.user) {
                None => r == Err::<PendingWithdrawal, InstructionError>(
                    InstructionError::TransferHook(TransferHookError::UserNotWhitelisted),
                ),
                Some(i) => if self.whitelist.address@[i].amount < amount {
                    r == Err::<PendingWithdrawal, InstructionError>(
                        InstructionError::TransferHook(TransferHookError::InsufficientWhitelistedBalance),
                    )
                } else {
                    (r matches Ok(p) && {
                        &&& p.entry_index == i
                        &&& p.transfer.from == self.vault_token_account
                        &&& p.transfer.to == self.user_token_account
                        &&& p.transfer.mint == self.mint
                        &&& p.transfer.authority == self.vault_authority
                        &&& p.transfer.amount == amount
                        &&& p.transfer.decimals == self.mint_decimals
                        &&& p.transfer.signer_seeds@.len() == 2
                        &&& p.transfer.signer_seeds@[0]@ == vault_authority_seed()
                        &&& p.transfer.signer_seeds@[1]@ == seq![bumps.vault_authority]
                    })
                },
            },
    {
        if amount == 0 {
            return Err(InstructionError::Vault(VaultError::InsufficientBalance));
        }
        let entry_index = match self.whitelist.position(&self.user) {
            Some(i) => i,
            None => {
                return Err(InstructionError::TransferHook(TransferHookError::UserNotWhitelisted));
            },
        };
        proof {
            lemma_find_entry(self.whitelist.address@, self.user);
        }
        let current_amount = self.whitelist.address[entry_index].amount;
        if current_amount < amount {
            return Err(InstructionError::TransferHook(TransferHookError::InsufficientWhitelistedBalance));
        }
        let signer_seeds = vault_authority_signer_seeds(bumps.vault_authority);
        let transfer = TokenTransfer {
            from: self.vault_token_account,
            to: self.user_token_account,
            mint: self.mint,
            authority: self.vault_authority,
            amount,
            decimals: self.mint_decimals,
            signer_seeds,
        };
        Ok(PendingWithdrawal { entry_index, transfer })
    }

    /// Debits the withdrawn amount from the user's entry once the transfer is done. Fails with
    /// `MathOverflow`, changing nothing, when the recorded amount is smaller than it.
    pub fn complete_withdrawal(&mut self, pending: &PendingWithdrawal) -> (r: Result<(), InstructionError>)
        requires
            pending.entry_index < old(self).whitelist.address.len(),
        ensures
            ({
                let entries = old(self).whitelist.address@;
                let i = pending.entry_index as int;
                let amount = pending.transfer.amount;
                &&& entries[i].amount >= amount ==> r is Ok
                    && final(self).whitelist.address@ == debited(entries, i, amount)
                &&& entries[i].amount < amount ==> r == Err::<(), InstructionError>(
                    InstructionError::TransferHook(TransferHookError::MathOverflow),
                ) && final(self).whitelist.address@ == entries
                &&& amount > 0 && entries[i].amount >= amount && find_entry(entries, old(self).user) == Some(i)
                    ==> withdraw_outcome(entries, old(self).user, amount) == Ok::<Seq<WhitelistEntry>, InstructionError>(
                    final(self).whitelist.address@,
                )
            }),
            final(self).whitelist.bump == old(self).whitelist.bump,
            final(self).user == old(self).user,
            final(self).mint == old(self).mint,
            final(self).mint_decimals == old(self).mint_decimals,
            final(self).user_token_account == old(self).user_token_account,
            final(self).vault_authority == old(self).vault_authority,
            final(self).vault == old(self).vault,
            final(self).vault_token_account == old(self).vault_token_account,
    {
        debit_entry(&mut self.whitelist, pending.entry_index, pending.transfer.amount)
    }
}

/// The accounts of a mint of vault tokens by the vault's admin.
#[derive(Clone, Copy, Debug)]
pub struct MintToken {
    pub admin: Pubkey,
    pub mint: Pubkey,
    pub destination_token_account: Pubkey,
    pub vault_authority: Pubkey,
    pub vault: Vault,
}

impl MintToken {
    /// Checks a mint of `amount`: it must be positive (else `InvalidAmount`) and the signer the
    /// vault's admin (else `UnauthorizedAdmin`). Gives the mint to make into the destination
    /// token account, with the vault authority as mint authority, signed by the program with the
    /// seeds `["vault_authority", [bump]]`.
    pub fn mint(&self, amount: u64, bumps: &MintTokenBumps) -> (r: Result<MintTo, InstructionError>)
        ensures
            amount == 0 ==> r == Err::<MintTo, InstructionError>(InstructionError::Mint(MintError::InvalidAmount)),
            amount > 0 && self.vault.admin != self.admin ==> r == Err::<MintTo, InstructionError>(
                InstructionError::Mint(MintError::UnauthorizedAdmin),
            ),
            amount > 0 && self.vault.admin == self.admin ==> (r matches Ok(m) && {
                &&& m.mint == self.mint
                &&& m.to == self.destination_token_account
                &&& m.authority == self.vault_authority
                &&& m.amount == amount
                &&& m.signer_seeds@.len() == 2
                &&& m.signer_seeds@[0]@ == vault_authority_seed()
                &&& m.signer_seeds@[1]@ == seq![bumps.vault_authority]
            }),
    {
        if amount == 0 {
            return Err(InstructionError::Mint(MintError::InvalidAmount));
        }
        if !self.vault.admin.same_as(&self.admin) {
            return Err(InstructionError::Mint(MintError::UnauthorizedAdmin));
        }
        Ok(MintTo {
            mint: self.mint,
            to: self.destination_token_account,
            authority: self.vault_authority,
            amount,
            signer_seeds: vault_authority_signer_seeds(bumps.vault_authority),
        })
    }
}

/// The accounts of the vault's creation; `vault` is `None` until the vault is written.
#[derive(Clone, Copy, Debug)]
pub struct InitializeVault {
    pub admin: Pubkey,
    pub mint: Pubkey,
    pub vault: Option<Vault>,
    pub vault_authority: Pubkey,
    pub token_account: Pubkey,
}

impl InitializeVault {
    /// Writes the vault: the signer becomes its admin, with the given mint, the new token
    /// account and the vault's bump.
    pub fn initialize_vault(&mut self, bumps: &InitializeVaultBumps) -> (r: Result<(), InstructionError>)
        ensures
            r is Ok,
            final(self).vault == Some(
                Vault {
                    admin: old(self).admin,
                    mint: old(self).mint,
                    token_account: old(self).token_account,
                    bump: bumps.vault,
                },
            ),
            final(self).admin == old(self).admin,
            final(self).mint == old(self).mint,
            final(self).vault_authority == old(self).vault_authority,
            final(self).token_account == old(self).token_account,
    {
        self.vault = Some(
            Vault {
                admin: self.admin,
                mint: self.mint,
                token_account: self.token_account,
                bump: bumps.vault,
            },
        );
        Ok(())
    }
}

} // verus!
