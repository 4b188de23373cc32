//! The ledger as a mathematical object: its state, its invariant and its
//! transitions. The executable ledger is specified against this model.

use vstd::prelude::*;
use crate::error::LedgerError;
use crate::holdings::{shares_of, total_held};
use crate::pricing::proceeds_of;
use crate::rules::{buy_back_rejection, issuance_rejection, purchase_rejection, sale_rejection};

verus! {

/// The state of an active ledger.
#[verifier::ext_equal]
pub struct LedgerView {
    /// The display name of the share.
    pub ticker: Seq<char>,
    /// All shares in existence.
    pub total_shares: nat,
    /// The shares that nobody holds and that can be bought.
    pub shares_outstanding: nat,
    /// The price of one share in whole tokens.
    pub price_per_share: nat,
    /// The shares that each account holds.
    pub share_ownership: Map<Seq<char>, nat>,
    /// The one caller that may issue shares and buy them back.
    pub allowed_admin_caller: Seq<char>,
}

/// A state-changing operation with its arguments.
pub enum Operation {
    /// `caller` buys `num_shares` and attaches `attached_deposit`.
    Buy { caller: Seq<char>, num_shares: nat, attached_deposit: nat },
    /// `caller` sells `num_shares`.
    Sell { caller: Seq<char>, num_shares: nat },
    /// `caller` issues `num_new_shares`.
    Issue { caller: Seq<char>, num_new_shares: nat },
    /// `caller` buys back `num_shares`.
    BuyBack { caller: Seq<char>, num_shares: nat },
}

impl LedgerView {
    /// The ledger right after initialization: every share is outstanding and
    /// nobody holds any.
    pub open spec fn initial(
        ticker: Seq<char>,
        total_shares: nat,
        price_per_share: nat,
        allowed_admin_caller: Seq<char>,
    ) -> LedgerView {
        LedgerView {
            ticker,
            total_shares,
            shares_outstanding: total_shares,
            price_per_share,
            share_ownership: Map::empty(),
            allowed_admin_caller,
        }
    }

    /// What holds of every ledger: the counters fit their 32 bits, no more
    /// shares are outstanding than exist, and the shares held by all accounts
    /// together are exactly the shares that are not outstanding.
    pub open spec fn consistent(self) -> bool {
        &&& self.total_shares <= u32::MAX
        &&& self.price_per_share <= u32::MAX
        &&& self.shares_outstanding <= self.total_shares
        &&& self.share_ownership.dom().finite()
        &&& total_held(self.share_ownership) == self.total_shares - self.shares_outstanding
    }

    /// The shares that `account` holds.
    pub open spec fn shares_owned(self, account: Seq<char>) -> nat {
        shares_of(self.share_ownership, account)
    }

    /// Whether `caller` may change the supply.
    pub open spec fn is_privileged(self, caller: Seq<char>) -> bool {
        caller == self.allowed_admin_caller
    }

    /// This ledger with `account` holding `shares_owned` and with
    /// `shares_outstanding` left for purchase.
    pub open spec fn with_holding(
        self,
        account: Seq<char>,
        shares_owned: nat,
        shares_outstanding: nat,
    ) -> LedgerView {
        LedgerView {
            shares_outstanding,
            share_ownership: self.share_ownership.insert(account, shares_owned),
            ..self
        }
    }

    /// This ledger with other supply counters.
    pub open spec fn with_supply(self, total_shares: nat, shares_outstanding: nat) -> LedgerView {
        LedgerView { total_shares, shares_outstanding, ..self }
    }

    /// `caller` buys `num_shares` and attaches `attached_deposit`.
    pub open spec fn buy(self, caller: Seq<char>, num_shares: nat, attached_deposit: nat) -> Result<
        LedgerView,
        LedgerError,
    > {
        match purchase_rejection(
            self.shares_outstanding,
            self.price_per_share,
            num_shares,
            attached_deposit,
        ) {
            Some(error) => Err(error),
            None => Ok(
                self.with_holding(
                    caller,
                    self.shares_owned(caller) + num_shares,
                    (self.shares_outstanding - num_shares) as nat,
                ),
            ),
        }
    }

    /// `caller` sells `num_shares`.
    pub open spec fn sell(self, caller: Seq<char>, num_shares: nat) -> Result<
        LedgerView,
        LedgerError,
    > {
        match sale_rejection(self.shares_owned(caller), self.price_per_share, num_shares) {
            Some(error) => Err(error),
            None => Ok(
                self.with_holding(
                    caller,
                    (self.shares_owned(caller) - num_shares) as nat,
                    self.shares_outstanding + num_shares,
                ),
            ),
        }
    }

    /// What a sale of `num_shares` pays out.
    pub open spec fn payout(self, num_shares: nat) -> nat {
        proceeds_of(num_shares, self.price_per_share)
    }

    /// `caller` issues `num_new_shares`.
    pub open spec fn issue(self, caller: Seq<char>, num_new_shares: nat) -> Result<
        LedgerView,
        LedgerError,
    > {
        match issuance_rejection(self.is_privileged(caller), self.total_shares, num_new_shares) {
            Some(error) => Err(error),
            None => Ok(
                self.with_supply(
                    self.total_shares + num_new_shares,
                    self.shares_outstanding + num_new_shares,
                ),
            ),
        }
    }

    /// `caller` buys back `num_shares` of the outstanding shares.
    pub open spec fn buy_back(self, caller: Seq<char>, num_shares: nat) -> Result<
        LedgerView,
        LedgerError,
    > {
        match buy_back_rejection(self.is_privileged(caller), self.shares_outstanding, num_shares) {
            Some(error) => Err(error),
            None => Ok(
                self.with_supply(
                    (self.total_shares - num_shares) as nat,
                    (self.shares_outstanding - num_shares) as nat,
                ),
            ),
        }
    }

    /// What an operation answers: the next state, or why it was refused.
    pub open spec fn attempt(self, operation: Operation) -> Result<LedgerView, LedgerError> {
        match operation {
            Operation::Buy { caller, num_shares, attached_deposit } => self.buy(
                caller,
                num_shares,
                attached_deposit,
            ),
            Operation::Sell { caller, num_shares } => self.sell(caller, num_shares),
            Operation::Issue { caller, num_new_shares } => self.issue(caller, num_new_shares),
            Operation::BuyBack { caller, num_shares } => self.buy_back(caller, num_shares),
        }
    }

    /// The ledger after an operation was attempted: the next state where it
    /// was accepted, this state where it was refused.
    pub open spec fn after(self, operation: Operation) -> LedgerView {
        match self.attempt(operation) {
            Ok(next) => next,
            Err(_) => self,
        }
    }

    /// The ledger after a series of operations was attempted in order.
    pub open spec fn after_all(self, operations: Seq<Operation>) -> LedgerView
        decreases operations.len(),
    {
        if operations.len() == 0 {
            self
        } else {
            self.after_all(operations.drop_last()).after(operations.last())
        }
    }
}

} // verus!
