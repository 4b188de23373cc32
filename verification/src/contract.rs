//! The active ledger: the state of one share issue and its operations.

use vstd::prelude::*;
use crate::access::verify_privileged;
use crate::error::LedgerError;
use crate::holdings::{lemma_holding_within_total, lemma_total_held_empty, lemma_total_held_insert};
use crate::model::{LedgerView, Operation};
use crate::ownership::OwnershipStore;
use crate::pricing::cost_of;
use crate::rules::{settle_buy_back, settle_issuance, settle_purchase, settle_sale, Supply, Trade};

verus! {

/// The instruction to pay a seller the proceeds of a sale.
///
/// The ledger only issues the request; carrying it out is up to whoever runs
/// the ledger. The sale is booked when the request is issued, and the ledger
/// never learns whether the payment arrived: a payment that fails is not
/// booked back.
#[derive(Debug, PartialEq, Eq)]
pub struct PaymentRequest {
    /// The account to pay.
    pub recipient: String,
    /// The amount to pay, in the smallest payment denomination.
    pub amount: u128,
}

/// An initialized ledger.
pub struct Contract {
    /// The display name of the share; never changes.
    ticker: String,
    /// All shares in existence; changed by issuance and buy-back only.
    total_shares: u32,
    /// The shares that nobody holds.
    shares_outstanding: u32,
    /// Whole tokens to pay for one share; never changes.
    price_per_share: u32,
    /// Who holds how many shares.
    share_ownership: OwnershipStore,
    /// The one account that may issue shares and buy them back.
    allowed_admin_caller: String,
}

impl View for Contract {
    type V = LedgerView;

    closed spec fn view(&self) -> LedgerView {
        LedgerView {
            ticker: self.ticker@,
            total_shares: self.total_shares as nat,
            shares_outstanding: self.shares_outstanding as nat,
            price_per_share: self.price_per_share as nat,
            share_ownership: self.share_ownership@,
            allowed_admin_caller: self.allowed_admin_caller@,
        }
    }
}

impl Contract {
    /// A ledger is well formed when its state is consistent. `new`
    /// establishes this and every operation keeps it, so that every ledger
    /// that a program can hold is well formed.
    pub open spec fn wf(&self) -> bool {
        self@.consistent()
    }

    /// Initializes a ledger: all `total_shares` are outstanding, nobody holds
    /// any, and one share costs `price_per_share` whole tokens.
    pub fn new(
        ticker: String,
        total_shares: u32,
        price_per_share: u32,
        allowed_admin_caller: String,
    ) -> (contract: Contract)
        ensures
            contract.wf(),
            contract@ == LedgerView::initial(
                ticker@,
                total_shares as nat,
                price_per_share as nat,
                allowed_admin_caller@,
            ),
    {
        proof {
            lemma_total_held_empty();
        }
        Contract {
            ticker,
            total_shares,
            price_per_share,
            shares_outstanding: total_shares,
            share_ownership: OwnershipStore::new(),
            allowed_admin_caller,
        }
    }

    /// `caller` buys `num_shares` against `attached_deposit`. The purchase is
    /// refused for a quantity of zero or above the outstanding shares, and for
    /// a deposit below the price; a deposit above the price is kept whole.
    pub fn buy_shares(&mut self, caller: &String, num_shares: u32, attached_deposit: u128) -> (outcome:
        Result<Trade, LedgerError>)
        requires
            old(self).wf(),
        ensures
            final(self).wf(),
            final(self)@ == old(self)@.after(
                (Operation::Buy {
                    caller: caller@,
                    num_shares: num_shares as nat,
                    attached_deposit: attached_deposit as nat,
                }),
            ),
            match old(self)@.buy(caller@, num_shares as nat, attached_deposit as nat) {
                Ok(next) => {
                    &&& final(self)@ == next
                    &&& outcome matches Ok(trade)
                    &&& trade.shares_owned == next.shares_owned(caller@)
                    &&& trade.shares_outstanding == next.shares_outstanding
                    &&& trade.payment == cost_of(num_shares as nat, next.price_per_share)
                },
                Err(error) => *final(self) == *old(self) && outcome == Err::<Trade, LedgerError>(
                    error,
                ),
            },
    {
        let shares_owned = self.share_ownership.get(caller);
        proof {
            self.share_ownership.lemma_view_bounded();
            lemma_holding_within_total(self.share_ownership@, caller@);
        }
        match settle_purchase(
            self.shares_outstanding,
            self.price_per_share,
            shares_owned,
            num_shares,
            attached_deposit,
        ) {
            Err(error) => Err(error),
            Ok(trade) => {
                proof {
                    lemma_total_held_insert(
                        self.share_ownership@,
                        caller@,
                        trade.shares_owned as nat,
                    );
                }
                self.share_ownership.set(caller, trade.shares_owned);
                self.shares_outstanding = trade.shares_outstanding;
                Ok(trade)
            },
        }
    }

    /// `caller` sells `num_shares` back to the ledger and is owed their price.
    /// The sale is refused for a quantity of zero or above what `caller`
    /// holds, and where the proceeds do not fit the payment type. The ledger
    /// is updated at once; the payment is only requested.
    pub fn sell_shares(&mut self, caller: &String, num_shares: u32) -> (outcome: Result<
        PaymentRequest,
        LedgerError,
    >)
        requires
            old(self).wf(),
        ensures
            final(self).wf(),
            final(self)@ == old(self)@.after(
                (Operation::Sell { caller: caller@, num_shares: num_shares as nat }),
            ),
            match old(self)@.sell(caller@, num_shares as nat) {
                Ok(next) => {
                    &&& final(self)@ == next
                    &&& outcome matches Ok(request)
                    &&& request.recipient@ == caller@
                    &&& request.amount == old(self)@.payout(num_shares as nat)
                },
                Err(error) => *final(self) == *old(self) && outcome == Err::<
                    PaymentRequest,
                    LedgerError,
                >(error),
            },
    {
        let shares_owned = self.share_ownership.get(caller);
        proof {
            self.share_ownership.lemma_view_bounded();
            lemma_holding_within_total(self.share_ownership@, caller@);
        }
        match settle_sale(self.shares_outstanding, self.price_per_share, shares_owned, num_shares) {
            Err(error) => Err(error),
            Ok(trade) => {
                proof {
                    lemma_total_held_insert(
                        self.share_ownership@,
                        caller@,
                        trade.shares_owned as nat,
                    );
                }
                self.share_ownership.set(caller, trade.shares_owned);
                self.shares_outstanding = trade.shares_outstanding;
                Ok(PaymentRequest { recipient: caller.clone(), amount: trade.payment })
            },
        }
    }

    /// The privileged caller creates `num_new_shares`, all outstanding. The
    /// price stays as it is.
    pub fn issue_new_shares(&mut self, caller: &String, num_new_shares: u32) -> (outcome: Result<
        (),
        LedgerError,
    >)
        requires
            old(self).wf(),
        ensures
            final(self).wf(),
            final(self)@ == old(self)@.after(
                (Operation::Issue { caller: caller@, num_new_shares: num_new_shares as nat }),
            ),
            match old(self)@.issue(caller@, num_new_shares as nat) {
                Ok(next) => final(self)@ == next && outcome.is_ok(),
                Err(error) => *final(self) == *old(self) && outcome == Err::<(), LedgerError>(
                    error,
                ),
            },
    {
        let supply = Supply {
            total_shares: self.total_shares,
            shares_outstanding: self.shares_outstanding,
        };
        match settle_issuance(&self.allowed_admin_caller, caller, supply, num_new_shares) {
            Err(error) => Err(error),
            Ok(supply) => {
                self.total_shares = supply.total_shares;
                self.shares_outstanding = supply.shares_outstanding;
                Ok(())
            },
        }
    }

    /// The privileged caller retires `num_shares_to_buy` of the outstanding
    /// shares. The price stays as it is.
    pub fn buy_back_shares(&mut self, caller: &String, num_shares_to_buy: u32) -> (outcome: Result<
        (),
        LedgerError,
    >)
        requires
            old(self).wf(),
        ensures
            final(self).wf(),
            final(self)@ == old(self)@.after(
                (Operation::BuyBack { caller: caller@, num_shares: num_shares_to_buy as nat }),
            ),
            match old(self)@.buy_back(caller@, num_shares_to_buy as nat) {
                Ok(next) => final(self)@ == next && outcome.is_ok(),
                Err(error) => *final(self) == *old(self) && outcome == Err::<(), LedgerError>(
                    error,
                ),
            },
    {
        let supply = Supply {
            total_shares: self.total_shares,
            shares_outstanding: self.shares_outstanding,
        };
        match settle_buy_back(&self.allowed_admin_caller, caller, supply, num_shares_to_buy) {
            Err(error) => Err(error),
            Ok(supply) => {
                self.total_shares = supply.total_shares;
                self.shares_outstanding = supply.shares_outstanding;
                Ok(())
            },
        }
    }

    /// The shares that can be bought. Like every read, this takes the ledger
    /// by shared reference and leaves it as it is.
    pub fn get_shares_outstanding(&self) -> (shares: u32)
        ensures
            shares == self@.shares_outstanding,
    {
        self.shares_outstanding
    }

    /// All shares in existence.
    pub fn get_total_shares(&self) -> (shares: u32)
        ensures
            shares == self@.total_shares,
    {
        self.total_shares
    }

    /// The shares that `account_id` holds; zero for an account that never
    /// bought.
    pub fn get_shares_owned(&self, account_id: &String) -> (shares: u32)
        ensures
            shares == self@.shares_owned(account_id@),
    {
        self.share_ownership.get(account_id)
    }

    /// The price of one share in whole tokens.
    pub fn get_price_per_share(&self) -> (price: u32)
        ensures
            price == self@.price_per_share,
    {
        self.price_per_share
    }

    /// The display name of the share.
    pub fn get_ticker(&self) -> (ticker: &String)
        ensures
            ticker@ == self@.ticker,
    {
        &self.ticker
    }

    /// Admits `caller` to the supply-changing operations only if it is the
    /// privileged caller that the ledger was initialized with.
    pub fn verify_caller(&self, caller: &String) -> (verdict: Result<(), LedgerError>)
        ensures
            verdict == if self@.is_privileged(caller@) {
                Ok::<(), LedgerError>(())
            } else {
                Err::<(), LedgerError>(LedgerError::Unauthorized)
            },
    {
        verify_privileged(&self.allowed_admin_caller, caller)
    }
}

} // verus!
