//! The ownership store: which account holds how many shares.
//!
//! An account gets its entry when it is first written; an account without an
//! entry holds no shares. Entries are never removed.

use vstd::prelude::*;
use crate::holdings::shares_of;

verus! {

/// One account and the shares it holds.
struct Holding {
    account: String,
    shares: u32,
}

/// The mapping from account to shares held.
pub struct OwnershipStore {
    entries: Vec<Holding>,
}

/// The mapping that a list of entries stands for. Where an account has
/// several entries, the first one counts.
spec fn mapping_of(entries: Seq<Holding>) -> Map<Seq<char>, nat>
    decreases entries.len(),
{
    if entries.len() == 0 {
        Map::empty()
    } else {
        mapping_of(entries.drop_first()).insert(
            entries.first().account@,
            entries.first().shares as nat,
        )
    }
}

/// Entry `i` is the first entry of `account`.
spec fn first_entry_of(entries: Seq<Holding>, account: Seq<char>, i: int) -> bool {
    &&& 0 <= i < entries.len()
    &&& entries[i].account@ == account
    &&& forall|j: int| 0 <= j < i ==> entries[j].account@ != account
}

/// No entry is one of `account`.
spec fn no_entry_of(entries: Seq<Holding>, account: Seq<char>) -> bool {
    forall|j: int| 0 <= j < entries.len() ==> entries[j].account@ != account
}

/// A mapping made of entries has finitely many accounts, and every holding
/// in it fits a share counter.
proof fn lemma_mapping_bounded(entries: Seq<Holding>)
    ensures
        mapping_of(entries).dom().finite(),
        forall|account: Seq<char>| #[trigger]
            mapping_of(entries).dom().contains(account) ==> mapping_of(entries)[account]
                <= u32::MAX,
    decreases entries.len(),
{
    if entries.len() > 0 {
        let rest = entries.drop_first();
        lemma_mapping_bounded(rest);
        assert forall|account: Seq<char>| #[trigger]
            mapping_of(entries).dom().contains(account) implies mapping_of(entries)[account]
            <= u32::MAX by {
            if account != entries.first().account@ {
                assert(mapping_of(rest).dom().contains(account));
            }
        }
    }
}

/// An account without an entry is not in the mapping.
proof fn lemma_mapping_absent(entries: Seq<Holding>, account: Seq<char>)
    requires
        no_entry_of(entries, account),
    ensures
        !mapping_of(entries).dom().contains(account),
    decreases entries.len(),
{
    if entries.len() > 0 {
        let rest = entries.drop_first();
        assert(entries[0].account@ != account);
        assert forall|j: int| 0 <= j < rest.len() implies rest[j].account@ != account by {
            assert(rest[j] == entries[j + 1]);
        }
        lemma_mapping_absent(rest, account);
    }
}

/// The mapping holds for an account what its first entry says.
proof fn lemma_mapping_entry(entries: Seq<Holding>, account: Seq<char>, i: int)
    requires
        first_entry_of(entries, account, i),
    ensures
        mapping_of(entries).dom().contains(account),
        mapping_of(entries)[account] == entries[i].shares as nat,
    decreases entries.len(),
{
    if i > 0 {
        let rest = entries.drop_first();
        assert(entries[0].account@ != account);
        assert(rest[i - 1] == entries[i]);
        assert forall|j: int| 0 <= j < i - 1 implies rest[j].account@ != account by {
            assert(rest[j] == entries[j + 1]);
        }
        lemma_mapping_entry(rest, account, i - 1);
    }
}

/// Replacing the first entry of an account writes that account in the mapping.
proof fn lemma_mapping_update(
    entries: Seq<Holding>,
    account: Seq<char>,
    i: int,
    replacement: Holding,
)
    requires
        first_entry_of(entries, account, i),
        replacement.account@ == account,
    ensures
        mapping_of(entries.update(i, replacement)) == mapping_of(entries).insert(
            account,
            replacement.shares as nat,
        ),
    decreases entries.len(),
{
    let updated = entries.update(i, replacement);
    let rest = entries.drop_first();
    if i == 0 {
        assert(updated.drop_first() =~= rest);
    } else {
        assert(entries[0].account@ != account);
        assert(rest[i - 1] == entries[i]);
        assert forall|j: int| 0 <= j < i - 1 implies rest[j].account@ != account by {
            assert(rest[j] == entries[j + 1]);
        }
        lemma_mapping_update(rest, account, i - 1, replacement);
        assert(updated.drop_first() =~= rest.update(i - 1, replacement));
        assert(updated.first() == entries.first());
    }
    assert(mapping_of(updated) =~= mapping_of(entries).insert(
        account,
        replacement.shares as nat,
    ));
}

/// Appending an entry for an account that has none writes that account in
/// the mapping.
proof fn lemma_mapping_push(entries: Seq<Holding>, addition: Holding)
    requires
        no_entry_of(entries, addition.account@),
    ensures
        mapping_of(entries.push(addition)) == mapping_of(entries).insert(
            addition.account@,
            addition.shares as nat,
        ),
    decreases entries.len(),
{
    let extended = entries.push(addition);
    if entries.len() == 0 {
        assert(extended.drop_first() =~= entries);
    } else {
        let rest = entries.drop_first();
        assert(entries[0].account@ != addition.account@);
        assert forall|j: int| 0 <= j < rest.len() implies rest[j].account@
            != addition.account@ by {
            assert(rest[j] == entries[j + 1]);
        }
        lemma_mapping_push(rest, addition);
        assert(extended.drop_first() =~= rest.push(addition));
        assert(extended.first() == entries.first());
    }
    assert(mapping_of(extended) =~= mapping_of(entries).insert(
        addition.account@,
        addition.shares as nat,
    ));
}

impl View for OwnershipStore {
    type V = Map<Seq<char>, nat>;

    closed spec fn view(&self) -> Map<Seq<char>, nat> {
        mapping_of(self.entries@)
    }
}

impl OwnershipStore {
    /// A store holds finitely many accounts, and no holding exceeds what a
    /// share counter can hold.
    pub proof fn lemma_view_bounded(&self)
        ensures
            self@.dom().finite(),
            forall|account: Seq<char>| #[trigger]
                self@.dom().contains(account) ==> self@[account] <= u32::MAX,
    {
        lemma_mapping_bounded(self.entries@);
    }

    /// A store in which nobody holds anything.
    pub fn new() -> (store: OwnershipStore)
        ensures
            store@ == Map::<Seq<char>, nat>::empty(),
    {
        OwnershipStore { entries: Vec::new() }
    }

    /// The position of the first entry of `account`, if it has one.
    fn position(&self, account: &String) -> (found: Option<usize>)
        ensures
            match found {
                Some(i) => first_entry_of(self.entries@, account@, i as int),
                None => no_entry_of(self.entries@, account@),
            },
    {
        let mut i: usize = 0;
        while i < self.entries.len()
            invariant
                i <= self.entries.len(),
                forall|j: int| 0 <= j < i ==> self.entries[j].account@ != account@,
            decreases self.entries.len() - i,
        {
            if self.entries[i].account == *account {
                return Some(i);
            }
            i += 1;
        }
        None
    }

    /// The shares that `account` holds; zero for an account never written.
    pub fn get(&self, account: &String) -> (shares: u32)
        ensures
            shares as nat == shares_of(self@, account@),
    {
        match self.position(account) {
            Some(i) => {
                proof {
                    lemma_mapping_entry(self.entries@, account@, i as int);
                }
                self.entries[i].shares
            },
            None => {
                proof {
                    lemma_mapping_absent(self.entries@, account@);
                }
                0
            },
        }
    }

    /// Sets the shares that `account` holds, creating its entry if it has none.
    pub fn set(&mut self, account: &String, shares: u32)
        ensures
            final(self)@ == old(self)@.insert(account@, shares as nat),
    {
        let holding = Holding { account: account.clone(), shares };
        match self.position(account) {
            Some(i) => {
                proof {
                    lemma_mapping_update(self.entries@, account@, i as int, holding);
                }
                self.entries.set(i, holding);
            },
            None => {
                proof {
                    lemma_mapping_push(self.entries@, holding);
                }
                self.entries.push(holding);
            },
        }
    }
}

} // verus!
