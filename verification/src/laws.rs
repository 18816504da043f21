use vstd::prelude::*;

use crate::pubkey::Pubkey;
use crate::state::{
    find_entry, lemma_find_entry, lemma_total_push, lemma_total_remove, lemma_total_update, listed,
    total_recorded, users_distinct, WhitelistEntry,
};
use crate::vault_ops::{credited, debited, deposit_outcome, withdraw_outcome};
use crate::whitelist::{added, balances_after, removed, rent_settles, rent_transfer, resized_len};

verus! {

/// Withdrawing what was just deposited gives back the whitelist as it was before the deposit.
pub proof fn law_deposit_then_withdraw(entries: Seq<WhitelistEntry>, user: Pubkey, amount: u64)
    requires
        deposit_outcome(entries, user, amount) is Ok,
    ensures
        withdraw_outcome(deposit_outcome(entries, user, amount)->Ok_0, user, amount)
            == Ok::<Seq<WhitelistEntry>, crate::error::InstructionError>(entries),
{
    let i = find_entry(entries, user)->Some_0;
    let after = credited(entries, i, amount);
    lemma_find_entry(entries, user);
    lemma_find_entry(after, user);
    assert forall|j: int| 0 <= j < i implies #[trigger] after[j].user != user by {
        assert(after[j] == entries[j]);
    }
    assert(after[i].user == user);
    assert(listed(after, user));
    let k = find_entry(after, user)->Some_0;
    if k < i {
        assert(after[k].user != user);
    }
    assert(debited(after, i, amount) =~= entries);
}

/// Depositing what was just withdrawn gives back the whitelist as it was before the withdrawal.
pub proof fn law_withdraw_then_deposit(entries: Seq<WhitelistEntry>, user: Pubkey, amount: u64)
    requires
        withdraw_outcome(entries, user, amount) is Ok,
    ensures
        deposit_outcome(withdraw_outcome(entries, user, amount)->Ok_0, user, amount)
            == Ok::<Seq<WhitelistEntry>, crate::error::InstructionError>(entries),
{
    let i = find_entry(entries, user)->Some_0;
    let after = debited(entries, i, amount);
    lemma_find_entry(entries, user);
    lemma_find_entry(after, user);
    assert forall|j: int| 0 <= j < i implies #[trigger] after[j].user != user by {
        assert(after[j] == entries[j]);
    }
    assert(after[i].user == user);
    assert(listed(after, user));
    let k = find_entry(after, user)->Some_0;
    if k < i {
        assert(after[k].user != user);
    }
    assert(credited(after, i, amount) =~= entries);
}

/// A deposit raises the total that the whitelist records by exactly the deposited amount,
/// leaves every other user's entry as it was, and keeps the users and their order.
pub proof fn law_deposit_accounting(entries: Seq<WhitelistEntry>, user: Pubkey, amount: u64)
    requires
        deposit_outcome(entries, user, amount) is Ok,
    ensures
        ({
            let after = deposit_outcome(entries, user, amount)->Ok_0;
            &&& total_recorded(after) == total_recorded(entries) + amount
            &&& after.len() == entries.len()
            &&& forall|j: int| 0 <= j < entries.len() ==> #[trigger] after[j].user == entries[j].user
            &&& forall|j: int| 0 <= j < entries.len() && entries[j].user != user ==> #[trigger] after[j] == entries[j]
            &&& users_distinct(entries) ==> users_distinct(after)
        }),
{
    let i = find_entry(entries, user)->Some_0;
    lemma_find_entry(entries, user);
    let after = credited(entries, i, amount);
    lemma_total_update(entries, i, after[i]);
    if users_distinct(entries) {
        assert forall|a: int, b: int| #![trigger after[a], after[b]] 0 <= a < b < after.len()
            implies after[a].user != after[b].user by {
            assert(after[a].user == entries[a].user && after[b].user == entries[b].user);
        }
    }
}

/// A withdrawal lowers the total that the whitelist records by exactly the withdrawn amount,
/// leaves every other user's entry as it was, and keeps the users and their order.
pub proof fn law_withdraw_accounting(entries: Seq<WhitelistEntry>, user: Pubkey, amount: u64)
    requires
        withdraw_outcome(entries, user, amount) is Ok,
    ensures
        ({
            let after = withdraw_outcome(entries, user, amount)->Ok_0;
            &&& total_recorded(after) == total_recorded(entries) - amount
            &&& after.len() == entries.len()
            &&& forall|j: int| 0 <= j < entries.len() ==> #[trigger] after[j].user == entries[j].user
            &&& forall|j: int| 0 <= j < entries.len() && entries[j].user != user ==> #[trigger] after[j] == entries[j]
            &&& users_distinct(entries) ==> users_distinct(after)
        }),
{
    let i = find_entry(entries, user)->Some_0;
    lemma_find_entry(entries, user);
    let after = debited(entries, i, amount);
    lemma_total_update(entries, i, after[i]);
    if users_distinct(entries) {
        assert forall|a: int, b: int| #![trigger after[a], after[b]] 0 <= a < b < after.len()
            implies after[a].user != after[b].user by {
            assert(after[a].user == entries[a].user && after[b].user == entries[b].user);
        }
    }
}

/// Removing a user that was just added to a whitelist without that user gives back the whitelist.
pub proof fn law_add_then_remove(entries: Seq<WhitelistEntry>, user: Pubkey)
    requires
        !listed(entries, user),
    ensures
        removed(added(entries, user), user) == entries,
{
    let grown = entries.push(WhitelistEntry { user, amount: 0 });
    lemma_find_entry(grown, user);
    assert(grown[entries.len() as int].user == user);
    let k = find_entry(grown, user)->Some_0;
    if k < entries.len() {
        assert(grown[k] == entries[k]);
        assert(listed(entries, user));
    }
    assert(grown.remove(entries.len() as int) =~= entries);
}

/// Adding a user who is not listed appends exactly one entry, for that user, with a zero
/// amount, after all the entries there were, which keep their places; the recorded total does
/// not change. Adding a listed user changes nothing.
pub proof fn law_add_appends_zero_entry(entries: Seq<WhitelistEntry>, user: Pubkey)
    ensures
        !listed(entries, user) ==> {
            let after = added(entries, user);
            &&& after.len() == entries.len() + 1
            &&& forall|j: int| 0 <= j < entries.len() ==> #[trigger] after[j] == entries[j]
            &&& after[entries.len() as int].user == user
            &&& after[entries.len() as int].amount == 0
        },
        listed(entries, user) ==> added(entries, user) == entries,
        total_recorded(added(entries, user)) == total_recorded(entries),
{
    lemma_total_push(entries, WhitelistEntry { user, amount: 0 });
}

/// Removing a listed user drops the user's first entry and nothing else: the entries before it
/// stay where they were, those after it move up by one in the same order, and the recorded total
/// falls by the dropped entry's amount. Removing a user who is not listed changes nothing.
pub proof fn law_remove_keeps_order(entries: Seq<WhitelistEntry>, user: Pubkey)
    ensures
        listed(entries, user) ==> {
            let i = find_entry(entries, user)->Some_0;
            let after = removed(entries, user);
            &&& 0 <= i < entries.len()
            &&& entries[i].user == user
            &&& forall|j: int| 0 <= j < i ==> entries[j].user != user
            &&& after.len() == entries.len() - 1
            &&& after == entries.subrange(0, i) + entries.subrange(i + 1, entries.len() as int)
            &&& forall|j: int| 0 <= j < i ==> #[trigger] after[j] == entries[j]
            &&& forall|j: int| i <= j < after.len() ==> #[trigger] after[j] == entries[j + 1]
            &&& total_recorded(after) == total_recorded(entries) - entries[i].amount
        },
        !listed(entries, user) ==> removed(entries, user) == entries,
{
    lemma_find_entry(entries, user);
    if listed(entries, user) {
        let i = find_entry(entries, user)->Some_0;
        assert(entries.remove(i) =~= entries.subrange(0, i) + entries.subrange(i + 1, entries.len() as int));
        lemma_total_remove(entries, i);
    }
}

/// Adding a user twice is the same as adding the user once.
pub proof fn law_add_idempotent(entries: Seq<WhitelistEntry>, user: Pubkey)
    ensures
        added(added(entries, user), user) == added(entries, user),
{
    if !listed(entries, user) {
        let grown = entries.push(WhitelistEntry { user, amount: 0 });
        assert(grown[entries.len() as int].user == user);
    }
}

/// Growing the whitelist account by one entry and shrinking it again restores its length.
pub proof fn law_resize_roundtrip(data_len: int)
    requires
        data_len >= 0,
    ensures
        resized_len(false, resized_len(true, data_len)->Some_0) == Some(data_len),
{
}

/// After the rent transfer of a resize, the whitelist account holds, when it grew, its old
/// balance or the new minimum, whichever is larger; when it shrank, whichever is smaller.
pub proof fn law_rent_after_resize(admin_lamports: u64, lamports: u64, lamports_required: u64)
    ensures
        balances_after(admin_lamports as int, lamports as int, rent_transfer(true, lamports, lamports_required)).1
            == if lamports >= lamports_required {
            lamports as int
        } else {
            lamports_required as int
        },
        balances_after(admin_lamports as int, lamports as int, rent_transfer(false, lamports, lamports_required)).1
            == if lamports <= lamports_required {
            lamports as int
        } else {
            lamports_required as int
        },
{
}

/// The rent transfer of a resize only moves lamports between the admin and the whitelist
/// account: their sum stays the same, growing or shrinking.
pub proof fn law_resize_conserves_lamports(
    is_adding: bool,
    admin_lamports: u64,
    lamports: u64,
    lamports_required: u64,
)
    ensures
        ({
            let after = balances_after(
                admin_lamports as int,
                lamports as int,
                rent_transfer(is_adding, lamports, lamports_required),
            );
            after.0 + after.1 == admin_lamports + lamports
        }),
{
}

/// A resize keeps a rent-exempt whitelist account rent-exempt: after growing it holds at least
/// the minimum for its new length; after shrinking, when it held at least the minimum for its
/// old length and that minimum is no smaller than the one for the new length, it holds exactly
/// the new minimum.
pub proof fn law_resize_keeps_rent_exempt(
    admin_lamports: u64,
    lamports: u64,
    old_required: u64,
    new_required: u64,
)
    ensures
        balances_after(admin_lamports as int, lamports as int, rent_transfer(true, lamports, new_required)).1
            >= new_required,
        lamports >= old_required && new_required <= old_required ==> balances_after(
            admin_lamports as int,
            lamports as int,
            rent_transfer(false, lamports, new_required),
        ).1 == new_required,
{
}

/// Growing the whitelist account by one entry and then shrinking it again, with an account
/// that held exactly the minimum for its length, gives back its length, its balance and the
/// admin's balance. `grown_required` is the minimum for the grown length; the admin must be
/// able to pay the growth.
pub proof fn law_grow_then_shrink(data_len: int, admin_lamports: u64, lamports: u64, grown_required: u64)
    requires
        data_len >= 0,
        rent_settles(admin_lamports, lamports, rent_transfer(true, lamports, grown_required)),
    ensures
        ({
            let grown = balances_after(
                admin_lamports as int,
                lamports as int,
                rent_transfer(true, lamports, grown_required),
            );
            let shrunk = balances_after(
                grown.0,
                grown.1,
                rent_transfer(false, grown.1 as u64, lamports),
            );
            &&& resized_len(false, resized_len(true, data_len)->Some_0) == Some(data_len)
            &&& shrunk == (admin_lamports as int, lamports as int)
        }),
{
}

/// Removing a user that was just added to a whitelist without that user, with the account's
/// growth and shrinkage, gives back the entries, the account's length and balance and the
/// admin's balance (the account holding exactly the minimum for its length before the addition).
pub proof fn law_add_then_remove_account(
    entries: Seq<WhitelistEntry>,
    user: Pubkey,
    data_len: int,
    admin_lamports: u64,
    lamports: u64,
    grown_required: u64,
)
    requires
        !listed(entries, user),
        data_len >= 0,
        rent_settles(admin_lamports, lamports, rent_transfer(true, lamports, grown_required)),
    ensures
        ({
            let grown = balances_after(
                admin_lamports as int,
                lamports as int,
                rent_transfer(true, lamports, grown_required),
            );
            let shrunk = balances_after(
                grown.0,
                grown.1,
                rent_transfer(false, grown.1 as u64, lamports),
            );
            &&& removed(added(entries, user), user) == entries
            &&& resized_len(false, resized_len(true, data_len)->Some_0) == Some(data_len)
            &&& shrunk == (admin_lamports as int, lamports as int)
        }),
{
    law_add_then_remove(entries, user);
    law_grow_then_shrink(data_len, admin_lamports, lamports, grown_required);
}

} // verus!
