use whitelist_transfer_hook::error::{InstructionError, MintError, TransferHookError, VaultError};
use whitelist_transfer_hook::pubkey::Pubkey;
use whitelist_transfer_hook::state::{Vault, Whitelist, WhitelistEntry};
use whitelist_transfer_hook::vault_ops::{
    check_vault_mint, Deposit, DepositBumps, InitializeVault, InitializeVaultBumps, MintTo,
    MintToken, MintTokenBumps, Withdraw, WithdrawBumps,
};

fn key(b: u8) -> Pubkey {
    Pubkey::new_from_array([b; 32])
}

fn vault() -> Vault {
    Vault { admin: key(1), mint: key(2), token_account: key(3), bump: 250 }
}

fn whitelist(entries: Vec<WhitelistEntry>) -> Whitelist {
    Whitelist { address: entries, bump: 253 }
}

fn deposit_ctx(user: u8, entries: Vec<WhitelistEntry>) -> Deposit {
    Deposit {
        user: key(user),
        mint: key(2),
        mint_decimals: 6,
        user_token_account: key(20),
        vault_authority: key(21),
        vault: vault(),
        vault_token_account: key(3),
        whitelist: whitelist(entries),
    }
}

fn withdraw_ctx(user: u8, entries: Vec<WhitelistEntry>) -> Withdraw {
    Withdraw {
        user: key(user),
        mint: key(2),
        mint_decimals: 6,
        user_token_account: key(20),
        vault_authority: key(21),
        vault: vault(),
        vault_token_account: key(3),
        whitelist: whitelist(entries),
    }
}

const DEPOSIT_BUMPS: DepositBumps = DepositBumps { vault_authority: 255, vault: 250, whitelist: 253 };
const WITHDRAW_BUMPS: WithdrawBumps = WithdrawBumps { vault_authority: 255, vault: 250, whitelist: 253 };

fn entry(user: u8, amount: u64) -> WhitelistEntry {
    WhitelistEntry { user: key(user), amount }
}

#[test]
fn vault_mint_constraint() {
    assert_eq!(check_vault_mint(&vault(), &key(2)), Ok(()));
    assert_eq!(
        check_vault_mint(&vault(), &key(4)),
        Err(InstructionError::Vault(VaultError::InvalidVaultMint))
    );
}

#[test]
fn deposit_credits_the_user() {
    let mut ctx = deposit_ctx(7, vec![entry(5, 1), entry(7, 10)]);
    let pending = ctx.deposit(25, &DEPOSIT_BUMPS).unwrap();
    assert_eq!(pending.entry_index, 1);
    assert_eq!(pending.transfer.from, key(20));
    assert_eq!(pending.transfer.to, key(3));
    assert_eq!(pending.transfer.mint, key(2));
    assert_eq!(pending.transfer.authority, key(7));
    assert_eq!(pending.transfer.amount, 25);
    assert_eq!(pending.transfer.decimals, 6);
    assert!(pending.transfer.signer_seeds.is_empty());
    assert_eq!(ctx.complete_deposit(&pending), Ok(()));
    assert_eq!(ctx.whitelist.address, vec![entry(5, 1), entry(7, 35)]);
}

#[test]
fn deposit_of_zero_is_refused() {
    let ctx = deposit_ctx(7, vec![entry(7, 10)]);
    assert_eq!(
        ctx.deposit(0, &DEPOSIT_BUMPS),
        Err(InstructionError::Vault(VaultError::InsufficientBalance))
    );
}

#[test]
fn deposit_by_stranger_is_refused() {
    let ctx = deposit_ctx(8, vec![entry(7, 10)]);
    assert_eq!(
        ctx.deposit(3, &DEPOSIT_BUMPS),
        Err(InstructionError::TransferHook(TransferHookError::UserNotWhitelisted))
    );
}

#[test]
fn deposit_overflow_changes_nothing() {
    let mut ctx = deposit_ctx(7, vec![entry(7, u64::MAX - 1)]);
    let pending = ctx.deposit(2, &DEPOSIT_BUMPS).unwrap();
    assert_eq!(
        ctx.complete_deposit(&pending),
        Err(InstructionError::TransferHook(TransferHookError::MathOverflow))
    );
    assert_eq!(ctx.whitelist.address, vec![entry(7, u64::MAX - 1)]);
}

#[test]
fn withdraw_debits_the_user_signed_by_vault_authority() {
    let mut ctx = withdraw_ctx(7, vec![entry(5, 1), entry(7, 10)]);
    let pending = ctx.withdraw(4, &WITHDRAW_BUMPS).unwrap();
    assert_eq!(pending.entry_index, 1);
    assert_eq!(pending.transfer.from, key(3));
    assert_eq!(pending.transfer.to, key(20));
    assert_eq!(pending.transfer.authority, key(21));
    assert_eq!(pending.transfer.amount, 4);
    assert_eq!(pending.transfer.decimals, 6);
    assert_eq!(pending.transfer.signer_seeds, vec![b"vault_authority".to_vec(), vec![255u8]]);
    assert_eq!(ctx.complete_withdrawal(&pending), Ok(()));
    assert_eq!(ctx.whitelist.address, vec![entry(5, 1), entry(7, 6)]);
}

#[test]
fn withdraw_errors() {
    let ctx = withdraw_ctx(7, vec![entry(7, 10)]);
    assert_eq!(
        ctx.withdraw(0, &WITHDRAW_BUMPS),
        Err(InstructionError::Vault(VaultError::InsufficientBalance))
    );
    assert_eq!(
        ctx.withdraw(11, &WITHDRAW_BUMPS),
        Err(InstructionError::TransferHook(TransferHookError::InsufficientWhitelistedBalance))
    );
    let stranger = withdraw_ctx(8, vec![entry(7, 10)]);
    assert_eq!(
        stranger.withdraw(1, &WITHDRAW_BUMPS),
        Err(InstructionError::TransferHook(TransferHookError::UserNotWhitelisted))
    );
}

#[test]
fn withdraw_everything_leaves_zero() {
    let mut ctx = withdraw_ctx(7, vec![entry(7, 10)]);
    let pending = ctx.withdraw(10, &WITHDRAW_BUMPS).unwrap();
    assert_eq!(ctx.complete_withdrawal(&pending), Ok(()));
    assert_eq!(ctx.whitelist.address, vec![entry(7, 0)]);
}

#[test]
fn deposit_then_withdraw_restores_balance() {
    let entries = vec![entry(5, 1), entry(7, 10)];
    let mut dep = deposit_ctx(7, entries.clone());
    let pending = dep.deposit(40, &DEPOSIT_BUMPS).unwrap();
    dep.complete_deposit(&pending).unwrap();
    let mut wd = withdraw_ctx(7, dep.whitelist.address.clone());
    let pending = wd.withdraw(40, &WITHDRAW_BUMPS).unwrap();
    wd.complete_withdrawal(&pending).unwrap();
    assert_eq!(wd.whitelist.address, entries);
}

#[test]
fn withdrawal_overdraft_at_completion_is_math_overflow() {
    let mut ctx = withdraw_ctx(7, vec![entry(7, 10)]);
    let pending = ctx.withdraw(10, &WITHDRAW_BUMPS).unwrap();
    ctx.whitelist.address[0].amount = 3;
    assert_eq!(
        ctx.complete_withdrawal(&pending),
        Err(InstructionError::TransferHook(TransferHookError::MathOverflow))
    );
    assert_eq!(ctx.whitelist.address, vec![entry(7, 3)]);
}

fn mint_ctx(admin: u8) -> MintToken {
    MintToken {
        admin: key(admin),
        mint: key(2),
        destination_token_account: key(30),
        vault_authority: key(21),
        vault: vault(),
    }
}

const MINT_BUMPS: MintTokenBumps = MintTokenBumps { vault_authority: 255, vault: 250 };

#[test]
fn mint_by_admin() {
    assert_eq!(
        mint_ctx(1).mint(500, &MINT_BUMPS),
        Ok(MintTo {
            mint: key(2),
            to: key(30),
            authority: key(21),
            amount: 500,
            signer_seeds: vec![b"vault_authority".to_vec(), vec![255u8]],
        })
    );
}

#[test]
fn mint_errors() {
    assert_eq!(mint_ctx(1).mint(0, &MINT_BUMPS), Err(InstructionError::Mint(MintError::InvalidAmount)));
    assert_eq!(mint_ctx(2).mint(0, &MINT_BUMPS), Err(InstructionError::Mint(MintError::InvalidAmount)));
    assert_eq!(
        mint_ctx(2).mint(5, &MINT_BUMPS),
        Err(InstructionError::Mint(MintError::UnauthorizedAdmin))
    );
}

#[test]
fn initialize_vault_records_admin_mint_and_account() {
    let mut ctx = InitializeVault {
        admin: key(1),
        mint: key(2),
        vault: None,
        vault_authority: key(21),
        token_account: key(3),
    };
    let bumps = InitializeVaultBumps { vault: 250, vault_authority: 255, token_account: 252 };
    assert_eq!(ctx.initialize_vault(&bumps), Ok(()));
    assert_eq!(ctx.vault, Some(vault()));
}
