//! Arithmetic on the ownership mapping: who holds how many shares, and how
//! many shares are held in all.

use vstd::prelude::*;

verus! {

/// The shares that `account` holds. An account without an entry holds none.
pub open spec fn shares_of(holdings: Map<Seq<char>, nat>, account: Seq<char>) -> nat {
    if holdings.dom().contains(account) {
        holdings[account]
    } else {
        0
    }
}

/// The sum of all holdings of a finite mapping.
pub open spec fn total_held(holdings: Map<Seq<char>, nat>) -> nat
    decreases holdings.dom().len(),
    when holdings.dom().finite()
{
    if holdings.dom().len() == 0 {
        0
    } else {
        let account = holdings.dom().choose();
        holdings[account] + total_held(holdings.remove(account))
    }
}

/// Nothing is held where nobody holds anything.
pub proof fn lemma_total_held_empty()
    ensures
        total_held(Map::<Seq<char>, nat>::empty()) == 0,
{
    assert(Map::<Seq<char>, nat>::empty().dom() =~= Set::empty());
}

/// The sum may be taken with any one account split off first.
pub proof fn lemma_total_held_split(holdings: Map<Seq<char>, nat>, account: Seq<char>)
    requires
        holdings.dom().finite(),
        holdings.dom().contains(account),
    ensures
        total_held(holdings) == holdings[account] + total_held(holdings.remove(account)),
    decreases holdings.dom().len(),
{
    let first = holdings.dom().choose();
    if first != account {
        let without_first = holdings.remove(first);
        let without_account = holdings.remove(account);
        lemma_total_held_split(without_first, account);
        lemma_total_held_split(without_account, first);
        assert(without_first.remove(account) =~= without_account.remove(first));
    }
}

/// Writing one entry changes the sum by the difference between the new and
/// the old holding of that account.
pub proof fn lemma_total_held_insert(
    holdings: Map<Seq<char>, nat>,
    account: Seq<char>,
    shares: nat,
)
    requires
        holdings.dom().finite(),
    ensures
        total_held(holdings.insert(account, shares)) + shares_of(holdings, account) == total_held(
            holdings,
        ) + shares,
{
    let updated = holdings.insert(account, shares);
    lemma_total_held_split(updated, account);
    if holdings.dom().contains(account) {
        lemma_total_held_split(holdings, account);
        assert(updated.remove(account) =~= holdings.remove(account));
    } else {
        assert(updated.remove(account) =~= holdings);
    }
}

/// No account holds more than all accounts together.
pub proof fn lemma_holding_within_total(holdings: Map<Seq<char>, nat>, account: Seq<char>)
    requires
        holdings.dom().finite(),
    ensures
        shares_of(holdings, account) <= total_held(holdings),
{
    if holdings.dom().contains(account) {
        lemma_total_held_split(holdings, account);
    }
}

} // verus!
