use vstd::prelude::*;

use crate::pubkey::Pubkey;

verus! {

/// The vault: who administers it, which mint it holds and in which token account.
#[derive(Clone, Copy, Debug, PartialEq, Eq)]
pub struct Vault {
    pub admin: Pubkey,
    pub mint: Pubkey,
    pub token_account: Pubkey,
    pub bump: u8,
}

impl Vault {
    /// Bytes that the vault's fields take in account data: three addresses and the bump.
    pub const INIT_SPACE: usize = 32 + 32 + 32 + 1;
}

/// One whitelisted user and the amount the vault records for that user.
#[derive(Clone, Copy, Debug, PartialEq, Eq)]
pub struct WhitelistEntry {
    pub user: Pubkey,
    pub amount: u64,
}

impl WhitelistEntry {
    /// Bytes that one entry adds to the whitelist account: the amount and the address.
    pub const SIZE: usize = 8 + 32;
}

/// The list of whitelisted users, in the order they were added.
#[derive(Clone, Debug, PartialEq, Eq)]
pub struct Whitelist {
    pub address: Vec<WhitelistEntry>,
    pub bump: u8,
}

/// A user's account of the state example program.
#[derive(Clone, Copy, Debug, PartialEq, Eq)]
pub struct UserAccount {
    pub user: Pubkey,
    pub data: u64,
    pub bump: u8,
}

impl UserAccount {
    /// Account size: the 8-byte account discriminator, then the address, the data and the bump.
    pub const INIT_SPACE: usize = 8 + 32 + 8 + 1;
}

/// Whether `user` occurs among the entries.
pub open spec fn listed(entries: Seq<WhitelistEntry>, user: Pubkey) -> bool {
    exists|i: int| 0 <= i < entries.len() && #[trigger] entries[i].user == user
}

/// The position of the first entry of `user`, if there is one.
pub open spec fn find_entry(entries: Seq<WhitelistEntry>, user: Pubkey) -> Option<int>
    decreases entries.len(),
{
    if entries.len() == 0 {
        None
    } else {
        match find_entry(entries.drop_last(), user) {
            Some(i) => Some(i),
            None => if entries.last().user == user {
                Some(entries.len() - 1)
            } else {
                None
            },
        }
    }
}

/// No user occurs twice among the entries.
pub open spec fn users_distinct(entries: Seq<WhitelistEntry>) -> bool {
    forall|i: int, j: int|
        #![trigger entries[i], entries[j]]
        0 <= i < j < entries.len() ==> entries[i].user != entries[j].user
}

/// Sum of the amounts that the entries record.
pub open spec fn total_recorded(entries: Seq<WhitelistEntry>) -> int
    decreases entries.len(),
{
    if entries.len() == 0 {
        0
    } else {
        total_recorded(entries.drop_last()) + entries.last().amount
    }
}

/// `find_entry` gives the first position of the user, and nothing exactly when the user is absent.
pub proof fn lemma_find_entry(entries: Seq<WhitelistEntry>, user: Pubkey)
    ensures
        find_entry(entries, user) is None <==> !listed(entries, user),
        find_entry(entries, user) matches Some(i) ==> {
            &&& 0 <= i < entries.len()
            &&& entries[i].user == user
            &&& forall|j: int| 0 <= j < i ==> #[trigger] entries[j].user != user
        },
    decreases entries.len(),
{
    if entries.len() > 0 {
        let prefix = entries.drop_last();
        lemma_find_entry(prefix, user);
        if listed(prefix, user) {
            let i = choose|i: int| 0 <= i < prefix.len() && #[trigger] prefix[i].user == user;
            assert(entries[i].user == user);
        }
        if listed(entries, user) && !listed(prefix, user) {
            let i = choose|i: int| 0 <= i < entries.len() && #[trigger] entries[i].user == user;
            if i < entries.len() - 1 {
                assert(prefix[i].user == user);
            }
        }
        match find_entry(prefix, user) {
            Some(i) => {
                assert forall|j: int| 0 <= j < i implies #[trigger] entries[j].user != user by {
                    assert(prefix[j] == entries[j]);
                }
            },
            None => {
                assert forall|j: int| 0 <= j < entries.len() - 1 implies #[trigger] entries[j].user != user by {
                    assert(prefix[j] == entries[j]);
                    if entries[j].user == user {
                        assert(listed(prefix, user));
                    }
                }
            },
        }
    }
}

/// Replacing one entry's amount changes the total by the difference.
pub proof fn lemma_total_update(entries: Seq<WhitelistEntry>, i: int, entry: WhitelistEntry)
    requires
        0 <= i < entries.len(),
    ensures
        total_recorded(entries.update(i, entry)) == total_recorded(entries) - entries[i].amount
            + entry.amount,
    decreases entries.len(),
{
    let updated = entries.update(i, entry);
    if i == entries.len() - 1 {
        assert(updated.drop_last() =~= entries.drop_last());
    } else {
        lemma_total_update(entries.drop_last(), i, entry);
        assert(updated.drop_last() =~= entries.drop_last().update(i, entry));
    }
}

/// Dropping one entry lowers the total by that entry's amount.
pub proof fn lemma_total_remove(entries: Seq<WhitelistEntry>, i: int)
    requires
        0 <= i < entries.len(),
    ensures
        total_recorded(entries.remove(i)) == total_recorded(entries) - entries[i].amount,
    decreases entries.len(),
{
    let rest = entries.remove(i);
    if i == entries.len() - 1 {
        assert(rest =~= entries.drop_last());
    } else {
        lemma_total_remove(entries.drop_last(), i);
        assert(rest.drop_last() =~= entries.drop_last().remove(i));
        assert(rest.last() == entries.last());
    }
}

/// Appending an entry raises the total by its amount.
pub proof fn lemma_total_push(entries: Seq<WhitelistEntry>, entry: WhitelistEntry)
    ensures
        total_recorded(entries.push(entry)) == total_recorded(entries) + entry.amount,
{
    assert(entries.push(entry).drop_last() =~= entries);
}

} // verus!
