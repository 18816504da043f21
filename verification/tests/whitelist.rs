use whitelist_transfer_hook::error::{InstructionError, TransferHookError};
use whitelist_transfer_hook::pubkey::Pubkey;
use whitelist_transfer_hook::state::{Whitelist, WhitelistEntry};
use whitelist_transfer_hook::whitelist::{settle_rent, Realloc, RentTransfer, WhitelistOperations};

fn key(b: u8) -> Pubkey {
    Pubkey::new_from_array([b; 32])
}

fn ops() -> WhitelistOperations {
    WhitelistOperations {
        admin: key(9),
        whitelist: Whitelist { address: Vec::new(), bump: 254 },
    }
}

#[test]
fn pubkey_comparison() {
    let mut bytes = [3u8; 32];
    assert!(key(3).same_as(&Pubkey::new_from_array(bytes)));
    bytes[31] = 4;
    assert!(!key(3).same_as(&Pubkey::new_from_array(bytes)));
    assert_eq!(Pubkey::new_from_array(bytes).to_bytes(), bytes);
}

#[test]
fn add_appends_new_user_with_zero_amount() {
    let mut ops = ops();
    assert!(ops.add_to_whitelist(key(1)));
    assert!(ops.add_to_whitelist(key(2)));
    assert_eq!(
        ops.whitelist.address,
        vec![WhitelistEntry { user: key(1), amount: 0 }, WhitelistEntry { user: key(2), amount: 0 }]
    );
    assert_eq!(ops.whitelist.bump, 254);
    assert_eq!(ops.whitelist.position(&key(2)), Some(1));
    assert_eq!(ops.whitelist.position(&key(3)), None);
    assert!(ops.whitelist.contains(&key(1)));
}

#[test]
fn add_is_idempotent() {
    let mut ops = ops();
    assert!(ops.add_to_whitelist(key(1)));
    ops.whitelist.address[0].amount = 5;
    assert!(!ops.add_to_whitelist(key(1)));
    assert_eq!(ops.whitelist.address, vec![WhitelistEntry { user: key(1), amount: 5 }]);
}

#[test]
fn add_then_remove_restores() {
    let mut ops = ops();
    ops.add_to_whitelist(key(1));
    ops.add_to_whitelist(key(2));
    let before = ops.whitelist.clone();
    assert!(ops.add_to_whitelist(key(3)));
    assert!(ops.remove_from_whitelist(key(3)));
    assert_eq!(ops.whitelist, before);
}

#[test]
fn remove_keeps_order_and_ignores_absent() {
    let mut ops = ops();
    ops.add_to_whitelist(key(1));
    ops.add_to_whitelist(key(2));
    ops.add_to_whitelist(key(3));
    assert!(ops.remove_from_whitelist(key(2)));
    assert_eq!(
        ops.whitelist.address,
        vec![WhitelistEntry { user: key(1), amount: 0 }, WhitelistEntry { user: key(3), amount: 0 }]
    );
    assert!(!ops.remove_from_whitelist(key(2)));
    assert!(!ops.whitelist.contains(&key(2)));
    assert_eq!(ops.whitelist.address.len(), 2);
}

#[test]
fn remove_takes_only_first_duplicate() {
    let mut ops = ops();
    ops.whitelist.address = vec![
        WhitelistEntry { user: key(1), amount: 7 },
        WhitelistEntry { user: key(1), amount: 8 },
    ];
    assert!(ops.remove_from_whitelist(key(1)));
    assert_eq!(ops.whitelist.address, vec![WhitelistEntry { user: key(1), amount: 8 }]);
}

#[test]
fn new_account_size_grows_and_shrinks_by_one_entry() {
    assert_eq!(WhitelistOperations::new_account_size(true, 53), Ok(93));
    assert_eq!(WhitelistOperations::new_account_size(false, 93), Ok(53));
    assert_eq!(WhitelistOperations::new_account_size(false, 40), Ok(0));
    assert_eq!(
        WhitelistOperations::new_account_size(false, 39),
        Err(InstructionError::TransferHook(TransferHookError::MathOverflow))
    );
}

#[test]
fn realloc_growing_asks_admin_for_missing_rent() {
    let ops = ops();
    assert_eq!(
        ops.realloc_whitelist(true, 53, 1_000, 1_500),
        Ok(Realloc { new_account_size: 93, rent: RentTransfer::FromAdmin(500) })
    );
    assert_eq!(
        ops.realloc_whitelist(true, 53, 2_000, 1_500),
        Ok(Realloc { new_account_size: 93, rent: RentTransfer::NoTransfer })
    );
    assert_eq!(
        ops.realloc_whitelist(true, 53, 1_500, 1_500),
        Ok(Realloc { new_account_size: 93, rent: RentTransfer::NoTransfer })
    );
}

#[test]
fn realloc_shrinking_refunds_admin() {
    let ops = ops();
    assert_eq!(
        ops.realloc_whitelist(false, 93, 2_000, 1_200),
        Ok(Realloc { new_account_size: 53, rent: RentTransfer::ToAdmin(800) })
    );
    assert_eq!(
        ops.realloc_whitelist(false, 93, 1_000, 1_200),
        Ok(Realloc { new_account_size: 53, rent: RentTransfer::NoTransfer })
    );
    assert_eq!(
        ops.realloc_whitelist(false, 10, 2_000, 1_200),
        Err(InstructionError::TransferHook(TransferHookError::MathOverflow))
    );
}

#[test]
fn settle_rent_moves_lamports_between_admin_and_whitelist() {
    assert_eq!(settle_rent(RentTransfer::NoTransfer, 100, 50), (100, 50));
    assert_eq!(settle_rent(RentTransfer::FromAdmin(30), 100, 50), (70, 80));
    assert_eq!(settle_rent(RentTransfer::ToAdmin(20), 100, 50), (120, 30));
}

#[test]
fn grow_then_shrink_gives_back_balances() {
    let ops = ops();
    let (admin, lamports) = (5_000u64, 1_000u64);
    let grow = ops.realloc_whitelist(true, 53, lamports, 1_300).unwrap();
    assert_eq!(grow.new_account_size, 93);
    let (admin, lamports_after) = settle_rent(grow.rent, admin, lamports);
    assert_eq!((admin, lamports_after), (4_700, 1_300));
    let shrink = ops.realloc_whitelist(false, 93, lamports_after, 1_000).unwrap();
    assert_eq!(shrink.new_account_size, 53);
    assert_eq!(settle_rent(shrink.rent, admin, lamports_after), (5_000, 1_000));
}
