//! The lifecycle around the active ledger: a ledger starts uninitialized,
//! is initialized exactly once, and accepts operations only afterwards.

use vstd::prelude::*;
use crate::contract::{Contract, PaymentRequest};
use crate::error::LedgerError;
use crate::model::LedgerView;
use crate::pricing::cost_of;
use crate::rules::Trade;

verus! {

/// A ledger that may not have been initialized yet.
pub struct Ledger {
    contract: Option<Contract>,
}

impl View for Ledger {
    type V = Option<LedgerView>;

    closed spec fn view(&self) -> Option<LedgerView> {
        match self.contract {
            Some(contract) => Some(contract@),
            None => None,
        }
    }
}

impl Ledger {
    /// A ledger is well formed when it is uninitialized or its state is
    /// consistent.
    pub open spec fn wf(&self) -> bool {
        self@ matches Some(state) ==> state.consistent()
    }

    /// A ledger that awaits its initialization.
    pub fn uninitialized() -> (ledger: Ledger)
        ensures
            ledger@ is None,
            ledger.wf(),
    {
        Ledger { contract: None }
    }

    /// Whether the ledger has been initialized.
    pub fn is_initialized(&self) -> (initialized: bool)
        ensures
            initialized == self@ is Some,
    {
        self.contract.is_some()
    }

    /// Initializes the ledger. A second initialization is refused and
    /// changes nothing.
    pub fn initialize(
        &mut self,
        ticker: String,
        total_shares: u32,
        price_per_share: u32,
        privileged_caller: String,
    ) -> (outcome: Result<(), LedgerError>)
        requires
            old(self).wf(),
        ensures
            final(self).wf(),
            match old(self)@ {
                None => outcome.is_ok() && final(self)@ == Some(
                    LedgerView::initial(
                        ticker@,
                        total_shares as nat,
                        price_per_share as nat,
                        privileged_caller@,
                    ),
                ),
                Some(_) => *final(self) == *old(self) && outcome == Err::<(), LedgerError>(
                    LedgerError::AlreadyInitialized,
                ),
            },
    {
        if self.contract.is_some() {
            return Err(LedgerError::AlreadyInitialized);
        }
        self.contract = Some(
            Contract::new(ticker, total_shares, price_per_share, privileged_caller),
        );
        Ok(())
    }

    /// `caller` buys `num_shares` against `payment`.
    pub fn buy(&mut self, caller: &String, num_shares: u32, payment: u128) -> (outcome: Result<
        Trade,
        LedgerError,
    >)
        requires
            old(self).wf(),
        ensures
            final(self).wf(),
            match old(self)@ {
                None => *final(self) == *old(self) && outcome == Err::<Trade, LedgerError>(
                    LedgerError::NotInitialized,
                ),
                Some(state) => match state.buy(caller@, num_shares as nat, payment as nat) {
                    Ok(next) => {
                        &&& final(self)@ == Some(next)
                        &&& outcome matches Ok(trade)
                        &&& trade.shares_owned == next.shares_owned(caller@)
                        &&& trade.shares_outstanding == next.shares_outstanding
                        &&& trade.payment == cost_of(num_shares as nat, next.price_per_share)
                    },
                    Err(error) => *final(self) == *old(self) && outcome == Err::<
                        Trade,
                        LedgerError,
                    >(error),
                },
            },
    {
        match &mut self.contract {
            None => Err(LedgerError::NotInitialized),
            Some(contract) => contract.buy_shares(caller, num_shares, payment),
        }
    }

    /// `caller` sells `num_shares` and is owed their price.
    pub fn sell(&mut self, caller: &String, num_shares: u32) -> (outcome: Result<
        PaymentRequest,
        LedgerError,
    >)
        requires
            old(self).wf(),
        ensures
            final(self).wf(),
            match old(self)@ {
                None => *final(self) == *old(self) && outcome == Err::<
                    PaymentRequest,
                    LedgerError,
                >(LedgerError::NotInitialized),
                Some(state) => match state.sell(caller@, num_shares as nat) {
                    Ok(next) => {
                        &&& final(self)@ == Some(next)
                        &&& outcome matches Ok(request)
                        &&& request.recipient@ == caller@
                        &&& request.amount == state.payout(num_shares as nat)
                    },
                    Err(error) => *final(self) == *old(self) && outcome == Err::<
                        PaymentRequest,
                        LedgerError,
                    >(error),
                },
            },
    {
        match &mut self.contract {
            None => Err(LedgerError::NotInitialized),
            Some(contract) => contract.sell_shares(caller, num_shares),
        }
    }

    /// The privileged caller creates `num_new_shares`.
    pub fn issue(&mut self, caller: &String, num_new_shares: u32) -> (outcome: Result<
        (),
        LedgerError,
    >)
        requires
            old(self).wf(),
        ensures
            final(self).wf(),
            match old(self)@ {
                None => *final(self) == *old(self) && outcome == Err::<(), LedgerError>(
                    LedgerError::NotInitialized,
                ),
                Some(state) => match state.issue(caller@, num_new_shares as nat) {
                    Ok(next) => final(self)@ == Some(next) && outcome.is_ok(),
                    Err(error) => *final(self) == *old(self) && outcome == Err::<(), LedgerError>(
                        error,
                    ),
                },
            },
    {
        match &mut self.contract {
            None => Err(LedgerError::NotInitialized),
            Some(contract) => contract.issue_new_shares(caller, num_new_shares),
        }
    }

    /// The privileged caller retires `num_shares` of the outstanding shares.
    pub fn buy_back(&mut self, caller: &String, num_shares: u32) -> (outcome: Result<
        (),
        LedgerError,
    >)
        requires
            old(self).wf(),
        ensures
            final(self).wf(),
            match old(self)@ {
                None => *final(self) == *old(self) && outcome == Err::<(), LedgerError>(
                    LedgerError::NotInitialized,
                ),
                Some(state) => match state.buy_back(caller@, num_shares as nat) {
                    Ok(next) => final(self)@ == Some(next) && outcome.is_ok(),
                    Err(error) => *final(self) == *old(self) && outcome == Err::<(), LedgerError>(
                        error,
                    ),
                },
            },
    {
        match &mut self.contract {
            None => Err(LedgerError::NotInitialized),
            Some(contract) => contract.buy_back_shares(caller, num_shares),
        }
    }

    /// The shares that can be bought.
    pub fn get_shares_outstanding(&self) -> (answer: Result<u32, LedgerError>)
        ensures
            match self@ {
                Some(state) => answer matches Ok(shares) && shares == state.shares_outstanding,
                None => answer == Err::<u32, LedgerError>(LedgerError::NotInitialized),
            },
    {
        match &self.contract {
            Some(contract) => Ok(contract.get_shares_outstanding()),
            None => Err(LedgerError::NotInitialized),
        }
    }

    /// All shares in existence.
    pub fn get_total_shares(&self) -> (answer: Result<u32, LedgerError>)
        ensures
            match self@ {
                Some(state) => answer matches Ok(shares) && shares == state.total_shares,
                None => answer == Err::<u32, LedgerError>(LedgerError::NotInitialized),
            },
    {
        match &self.contract {
            Some(contract) => Ok(contract.get_total_shares()),
            None => Err(LedgerError::NotInitialized),
        }
    }

    /// The price of one share in whole tokens.
    pub fn get_price_per_share(&self) -> (answer: Result<u32, LedgerError>)
        ensures
            match self@ {
                Some(state) => answer matches Ok(price) && price == state.price_per_share,
                None => answer == Err::<u32, LedgerError>(LedgerError::NotInitialized),
            },
    {
        match &self.contract {
            Some(contract) => Ok(contract.get_price_per_share()),
            None => Err(LedgerError::NotInitialized),
        }
    }

    /// The shares that `account` holds.
    pub fn get_shares_owned(&self, account: &String) -> (answer: Result<u32, LedgerError>)
        ensures
            match self@ {
                Some(state) => answer matches Ok(shares) && shares == state.shares_owned(account@),
                None => answer == Err::<u32, LedgerError>(LedgerError::NotInitialized),
            },
    {
        match &self.contract {
            Some(contract) => Ok(contract.get_shares_owned(account)),
            None => Err(LedgerError::NotInitialized),
        }
    }
}

} // verus!
