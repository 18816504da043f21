use vstd::prelude::*;

use crate::error::{InstructionError, TransferHookError};
use crate::pubkey::Pubkey;
use crate::state::{
    find_entry, lemma_find_entry, lemma_total_push, lemma_total_remove, listed, total_recorded,
    users_distinct, Whitelist, WhitelistEntry,
};

verus! {

/// The entries after `user` is added: unchanged when the user is already listed,
/// otherwise extended by a new entry for the user with a zero amount.
pub open spec fn added(entries: Seq<WhitelistEntry>, user: Pubkey) -> Seq<WhitelistEntry> {
    if listed(entries, user) {
        entries
    } else {
        entries.push(WhitelistEntry { user, amount: 0 })
    }
}

/// The entries after `user` is removed: the first entry of the user is dropped, if any.
pub open spec fn removed(entries: Seq<WhitelistEntry>, user: Pubkey) -> Seq<WhitelistEntry> {
    match find_entry(entries, user) {
        Some(i) => entries.remove(i),
        None => entries,
    }
}

/// The whitelist account's data length after one entry is added or removed;
/// nothing when an entry is to be removed from an account shorter than an entry.
pub open spec fn resized_len(is_adding: bool, data_len: int) -> Option<int> {
    if is_adding {
        Some(data_len + WhitelistEntry::SIZE)
    } else if data_len >= WhitelistEntry::SIZE {
        Some(data_len - WhitelistEntry::SIZE)
    } else {
        None
    }
}

/// The lamports that move when the whitelist account is resized, given its balance and the
/// rent-exempt minimum for its new length.
pub open spec fn rent_transfer(is_adding: bool, lamports: u64, lamports_required: u64) -> RentTransfer {
    if is_adding {
        if lamports_required > lamports {
            RentTransfer::FromAdmin((lamports_required - lamports) as u64)
        } else {
            RentTransfer::NoTransfer
        }
    } else {
        if lamports > lamports_required {
            RentTransfer::ToAdmin((lamports - lamports_required) as u64)
        } else {
            RentTransfer::NoTransfer
        }
    }
}

/// The admin's and the whitelist account's balances after the rent transfer.
pub open spec fn balances_after(admin_lamports: int, whitelist_lamports: int, rent: RentTransfer) -> (int, int) {
    match rent {
        RentTransfer::NoTransfer => (admin_lamports, whitelist_lamports),
        RentTransfer::FromAdmin(n) => (admin_lamports - n, whitelist_lamports + n),
        RentTransfer::ToAdmin(n) => (admin_lamports + n, whitelist_lamports - n),
    }
}

/// Whether the rent transfer can be made from these balances: the paying side holds the
/// amount and the receiving side can hold what it gets.
pub open spec fn rent_settles(admin_lamports: u64, whitelist_lamports: u64, rent: RentTransfer) -> bool {
    match rent {
        RentTransfer::NoTransfer => true,
        RentTransfer::FromAdmin(n) => n <= admin_lamports && whitelist_lamports + n <= u64::MAX,
        RentTransfer::ToAdmin(n) => n <= whitelist_lamports && admin_lamports + n <= u64::MAX,
    }
}

/// The admin's and the whitelist account's balances once the rent transfer of a resize is made;
/// lamports only move between the two.
pub fn settle_rent(rent: RentTransfer, admin_lamports: u64, whitelist_lamports: u64) -> (balances: (u64, u64))
    requires
        rent_settles(admin_lamports, whitelist_lamports, rent),
    ensures
        (balances.0 as int, balances.1 as int) == balances_after(
            admin_lamports as int,
            whitelist_lamports as int,
            rent,
        ),
        balances.0 + balances.1 == admin_lamports + whitelist_lamports,
{
    match rent {
        RentTransfer::NoTransfer => (admin_lamports, whitelist_lamports),
        RentTransfer::FromAdmin(n) => (admin_lamports - n, whitelist_lamports + n),
        RentTransfer::ToAdmin(n) => (admin_lamports + n, whitelist_lamports - n),
    }
}

impl Whitelist {
    /// Position of the first entry of `user`, if the user is whitelisted.
    pub fn position(&self, user: &Pubkey) -> (pos: Option<usize>)
        ensures
            match pos {
                Some(i) => find_entry(self.address@, *user) == Some(i as int),
                None => find_entry(self.address@, *user) is None,
            },
    {
        let n = self.address.len();
        let mut i: usize = 0;
        while i < n
            invariant
                n == self.address@.len(),
                0 <= i <= n,
                find_entry(self.address@.take(i as int), *user) is None,
            decreases n - i,
        {
            assert(self.address@.take(i + 1).drop_last() =~= self.address@.take(i as int));
            if self.address[i].user.same_as(user) {
                proof {
                    let prefix = self.address@.take(i as int);
                    lemma_find_entry(prefix, *user);
                    lemma_find_entry(self.address@, *user);
                    assert forall|j: int| 0 <= j < i implies #[trigger] self.address@[j].user != *user by {
                        assert(prefix[j] == self.address@[j]);
                    }
                }
                return Some(i);
            }
            i = i + 1;
        }
        assert(self.address@.take(n as int) =~= self.address@);
        None
    }

    /// Whether `user` is whitelisted.
    pub fn contains(&self, user: &Pubkey) -> (found: bool)
        ensures
            found == listed(self.address@, *user),
    {
        proof {
            lemma_find_entry(self.address@, *user);
        }
        self.position(user).is_some()
    }
}

/// How lamports move when the whitelist account is resized.
#[derive(Clone, Copy, Debug, PartialEq, Eq, Structural)]
pub enum RentTransfer {
    /// The account's balance already fits its new size.
    NoTransfer,
    /// The admin pays this many lamports into the whitelist account, before the resize.
    FromAdmin(u64),
    /// This many lamports move from the whitelist account back to the admin, after the resize.
    ToAdmin(u64),
}

/// What resizing the whitelist account by one entry takes.
#[derive(Clone, Copy, Debug, PartialEq, Eq, Structural)]
pub struct Realloc {
    /// The account's data length after the resize.
    pub new_account_size: usize,
    /// The lamports to move so that the account stays rent-exempt without holding more.
    pub rent: RentTransfer,
}

/// The admin's view of the whitelist: adds and removes users.
#[derive(Debug)]
pub struct WhitelistOperations {
    pub admin: Pubkey,
    pub whitelist: Whitelist,
}

impl WhitelistOperations {
    /// Adds `user` with a zero amount unless the user is already listed. Returns whether an
    /// entry was added, and with it the account has to grow by one entry (`realloc_whitelist`).
    pub fn add_to_whitelist(&mut self, user: Pubkey) -> (grew: bool)
        ensures
            grew == !listed(old(self).whitelist.address@, user),
            final(self).whitelist.address@ == added(old(self).whitelist.address@, user),
            !listed(old(self).whitelist.address@, user) ==> {
                let before = old(self).whitelist.address@;
                let after = final(self).whitelist.address@;
                &&& after.len() == before.len() + 1
                &&& forall|j: int| 0 <= j < before.len() ==> #[trigger] after[j] == before[j]
                &&& after[before.len() as int] == (WhitelistEntry { user, amount: 0 })
            },
            listed(old(self).whitelist.address@, user) ==> final(self).whitelist.address@
                == old(self).whitelist.address@,
            total_recorded(final(self).whitelist.address@) == total_recorded(old(self).whitelist.address@),
            final(self).whitelist.bump == old(self).whitelist.bump,
            final(self).admin == old(self).admin,
            listed(final(self).whitelist.address@, user),
            users_distinct(old(self).whitelist.address@) ==> users_distinct(
                final(self).whitelist.address@,
            ),
    {
        if self.whitelist.contains(&user) {
            false
        } else {
            self.whitelist.address.push(WhitelistEntry { user, amount: 0 });
            let ghost entries = self.whitelist.address@;
            proof {
                lemma_total_push(old(self).whitelist.address@, WhitelistEntry { user, amount: 0 });
            }
            assert(entries[entries.len() - 1].user == user);
            proof {
                let old_entries = old(self).whitelist.address@;
                if users_distinct(old_entries) {
                    assert forall|i: int, j: int|
                        #![trigger entries[i], entries[j]]
                        0 <= i < j < entries.len() implies entries[i].user != entries[j].user by {
                        if j == entries.len() - 1 {
                            assert(old_entries[i] == entries[i]);
                        } else {
                            assert(old_entries[i] == entries[i] && old_entries[j] == entries[j]);
                        }
                    }
                }
            }
            true
        }
    }

    /// Removes the first entry of `user`, if any. Returns whether an entry was removed, and
    /// with it the account has to shrink by one entry (`realloc_whitelist`).
    pub fn remove_from_whitelist(&mut self, user: Pubkey) -> (shrank: bool)
        ensures
            shrank == listed(old(self).whitelist.address@, user),
            final(self).whitelist.address@ == removed(old(self).whitelist.address@, user),
            match find_entry(old(self).whitelist.address@, user) {
                Some(i) => {
                    let before = old(self).whitelist.address@;
                    let after = final(self).whitelist.address@;
                    &&& after.len() == before.len() - 1
                    &&& before[i].user == user
                    &&& forall|j: int| 0 <= j < i ==> #[trigger] after[j] == before[j]
                    &&& forall|j: int| i <= j < after.len() ==> #[trigger] after[j] == before[j + 1]
                    &&& total_recorded(after) == total_recorded(before) - before[i].amount
                },
                None => final(self).whitelist.address@ == old(self).whitelist.address@,
            },
            final(self).whitelist.bump == old(self).whitelist.bump,
            final(self).admin == old(self).admin,
            users_distinct(old(self).whitelist.address@) ==> {
                &&& users_distinct(final(self).whitelist.address@)
                &&& !listed(final(self).whitelist.address@, user)
            },
    {
        proof {
            lemma_find_entry(self.whitelist.address@, user);
        }
        match self.whitelist.position(&user) {
            Some(pos) => {
                self.whitelist.address.remove(pos);
                proof {
                    let old_entries = old(self).whitelist.address@;
                    let entries = self.whitelist.address@;
                    assert(entries =~= old_entries.remove(pos as int));
                    lemma_total_remove(old_entries, pos as int);
                    if users_distinct(old_entries) {
                        assert forall|i: int, j: int|
                            #![trigger entries[i], entries[j]]
                            0 <= i < j < entries.len() implies entries[i].user != entries[j].user by {
                            let oi = if i < pos { i } else { i + 1 };
                            let oj = if j < pos { j } else { j + 1 };
                            assert(old_entries[oi] == entries[i] && old_entries[oj] == entries[j]);
                        }
                        if listed(entries, user) {
                            let k = choose|k: int| 0 <= k < entries.len() && #[trigger] entries[k].user == user;
                            let ok = if k < pos { k } else { k + 1 };
                            assert(old_entries[ok] == entries[k]);
                            if ok < pos {
                                assert(old_entries[ok].user != user);
                            }
                        }
                    }
                }
                true
            },
            None => false,
        }
    }

    /// The whitelist account's data length after one entry is added or removed.
    /// Fails with `MathOverflow` when an entry is to be removed from an account shorter than one entry.
    pub fn new_account_size(is_adding: bool, data_len: usize) -> (size: Result<usize, InstructionError>)
        requires
            is_adding ==> data_len + WhitelistEntry::SIZE <= usize::MAX,
        ensures
            match resized_len(is_adding, data_len as int) {
                Some(len) => size == Ok::<usize, InstructionError>(len as usize),
                None => size == Err::<usize, InstructionError>(
                    InstructionError::TransferHook(TransferHookError::MathOverflow),
                ),
            },
    {
        if is_adding {
            Ok(data_len + WhitelistEntry::SIZE)
        } else {
            match data_len.checked_sub(WhitelistEntry::SIZE) {
                Some(len) => Ok(len),
                None => Err(InstructionError::TransferHook(TransferHookError::MathOverflow)),
            }
        }
    }

    /// Plans the resize of the whitelist account by one entry. `data_len` and `lamports` are the
    /// account's current data length and balance, `lamports_required` the rent-exempt minimum
    /// for the new length (`new_account_size`). When growing, the admin pays what the account
    /// lacks; when shrinking, what the account holds above the minimum goes back to the admin.
    pub fn realloc_whitelist(
        &self,
        is_adding: bool,
        data_len: usize,
        lamports: u64,
        lamports_required: u64,
    ) -> (plan: Result<Realloc, InstructionError>)
        requires
            is_adding ==> data_len + WhitelistEntry::SIZE <= usize::MAX,
        ensures
            match resized_len(is_adding, data_len as int) {
                None => plan == Err::<Realloc, InstructionError>(
                    InstructionError::TransferHook(TransferHookError::MathOverflow),
                ),
                Some(len) => plan == Ok::<Realloc, InstructionError>(
                    Realloc {
                        new_account_size: len as usize,
                        rent: rent_transfer(is_adding, lamports, lamports_required),
                    },
                ),
            },
    {
        let new_account_size = Self::new_account_size(is_adding, data_len)?;
        let rent = if is_adding {
            let rent_diff = lamports_required.saturating_sub(lamports);
            if rent_diff > 0 {
                RentTransfer::FromAdmin(rent_diff)
            } else {
                RentTransfer::NoTransfer
            }
        } else {
            let rent_diff = lamports.saturating_sub(lamports_required);
            if rent_diff > 0 {
                RentTransfer::ToAdmin(rent_diff)
            } else {
                RentTransfer::NoTransfer
            }
        };
        Ok(Realloc { new_account_size, rent })
    }
}

} // verus!
