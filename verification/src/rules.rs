//! The rules of the four ledger operations, on plain numbers.
//!
//! Each rule validates completely before it computes anything, and hands
//! back the numbers to commit. A caller that keeps its balances elsewhere
//! can apply the rules to what it has read and store what they return.

use vstd::prelude::*;
use crate::access::verify_privileged;
use crate::error::LedgerError;
use crate::pricing::{cost, cost_of, payable, proceeds, proceeds_of};

verus! {

/// The numbers after a purchase or a sale.
#[derive(Clone, Copy, Debug, PartialEq, Eq, Structural)]
pub struct Trade {
    /// The shares that the trading account holds afterwards.
    pub shares_owned: u32,
    /// The shares left for purchase afterwards.
    pub shares_outstanding: u32,
    /// The price charged for a purchase, or the proceeds owed for a sale.
    pub payment: u128,
}

/// The two supply counters.
#[derive(Clone, Copy, Debug, PartialEq, Eq, Structural)]
pub struct Supply {
    /// All shares in existence.
    pub total_shares: u32,
    /// The shares not held by anyone.
    pub shares_outstanding: u32,
}

/// Why a purchase is refused, if it is.
pub open spec fn purchase_rejection(
    shares_outstanding: nat,
    price_per_share: nat,
    num_shares: nat,
    attached_deposit: nat,
) -> Option<LedgerError> {
    if num_shares == 0 || num_shares > shares_outstanding {
        Some(LedgerError::InvalidBuyQuantity)
    } else if attached_deposit < cost_of(num_shares, price_per_share) {
        Some(LedgerError::InsufficientDeposit)
    } else {
        None
    }
}

/// Why a sale is refused, if it is.
pub open spec fn sale_rejection(shares_owned: nat, price_per_share: nat, num_shares: nat) -> Option<
    LedgerError,
> {
    if num_shares == 0 || num_shares > shares_owned {
        Some(LedgerError::InvalidSellQuantity)
    } else if !payable(proceeds_of(num_shares, price_per_share)) {
        Some(LedgerError::ProceedsOverflow)
    } else {
        None
    }
}

/// Why an issuance is refused, if it is.
pub open spec fn issuance_rejection(privileged: bool, total_shares: nat, num_new_shares: nat)
    -> Option<LedgerError> {
    if !privileged {
        Some(LedgerError::Unauthorized)
    } else if total_shares + num_new_shares > u32::MAX {
        Some(LedgerError::SupplyOverflow)
    } else {
        None
    }
}

/// Why a buy-back is refused, if it is.
pub open spec fn buy_back_rejection(privileged: bool, shares_outstanding: nat, num_shares: nat)
    -> Option<LedgerError> {
    if !privileged {
        Some(LedgerError::Unauthorized)
    } else if num_shares > shares_outstanding {
        Some(LedgerError::BuyBackExceedsOutstanding)
    } else {
        None
    }
}

/// Decides a purchase of `num_shares` by an account that holds
/// `shares_owned`. A deposit above the price is accepted as it is.
pub fn settle_purchase(
    shares_outstanding: u32,
    price_per_share: u32,
    shares_owned: u32,
    num_shares: u32,
    attached_deposit: u128,
) -> (outcome: Result<Trade, LedgerError>)
    requires
        shares_owned + shares_outstanding <= u32::MAX,
    ensures
        match purchase_rejection(
            shares_outstanding as nat,
            price_per_share as nat,
            num_shares as nat,
            attached_deposit as nat,
        ) {
            Some(error) => outcome == Err::<Trade, LedgerError>(error),
            None => {
                &&& outcome matches Ok(trade)
                &&& trade.shares_owned == shares_owned + num_shares
                &&& trade.shares_outstanding == shares_outstanding - num_shares
                &&& trade.payment == cost_of(num_shares as nat, price_per_share as nat)
            },
        },
{
    if num_shares > shares_outstanding || num_shares == 0 {
        return Err(LedgerError::InvalidBuyQuantity);
    }
    match cost(num_shares, price_per_share) {
        Some(price) => {
            if attached_deposit < price {
                Err(LedgerError::InsufficientDeposit)
            } else {
                Ok(
                    Trade {
                        shares_owned: shares_owned + num_shares,
                        shares_outstanding: shares_outstanding - num_shares,
                        payment: price,
                    },
                )
            }
        },
        None => Err(LedgerError::InsufficientDeposit),
    }
}

/// Decides a sale of `num_shares` by an account that holds `shares_owned`.
pub fn settle_sale(
    shares_outstanding: u32,
    price_per_share: u32,
    shares_owned: u32,
    num_shares: u32,
) -> (outcome: Result<Trade, LedgerError>)
    requires
        shares_owned + shares_outstanding <= u32::MAX,
    ensures
        match sale_rejection(shares_owned as nat, price_per_share as nat, num_shares as nat) {
            Some(error) => outcome == Err::<Trade, LedgerError>(error),
            None => {
                &&& outcome matches Ok(trade)
                &&& trade.shares_owned == shares_owned - num_shares
                &&& trade.shares_outstanding == shares_outstanding + num_shares
                &&& trade.payment == proceeds_of(num_shares as nat, price_per_share as nat)
            },
        },
{
    if num_shares > shares_owned || num_shares == 0 {
        return Err(LedgerError::InvalidSellQuantity);
    }
    match proceeds(num_shares, price_per_share) {
        Some(payout) => Ok(
            Trade {
                shares_owned: shares_owned - num_shares,
                shares_outstanding: shares_outstanding + num_shares,
                payment: payout,
            },
        ),
        None => Err(LedgerError::ProceedsOverflow),
    }
}

/// Decides an issuance of `num_new_shares` asked for by `caller`.
pub fn settle_issuance(
    privileged_caller: &String,
    caller: &String,
    supply: Supply,
    num_new_shares: u32,
) -> (outcome: Result<Supply, LedgerError>)
    requires
        supply.shares_outstanding <= supply.total_shares,
    ensures
        match issuance_rejection(
            caller@ == privileged_caller@,
            supply.total_shares as nat,
            num_new_shares as nat,
        ) {
            Some(error) => outcome == Err::<Supply, LedgerError>(error),
            None => {
                &&& outcome matches Ok(issued)
                &&& issued.total_shares == supply.total_shares + num_new_shares
                &&& issued.shares_outstanding == supply.shares_outstanding + num_new_shares
            },
        },
{
    match verify_privileged(privileged_caller, caller) {
        Err(error) => Err(error),
        Ok(()) => match supply.total_shares.checked_add(num_new_shares) {
            Some(total_shares) => Ok(
                Supply {
                    total_shares,
                    shares_outstanding: supply.shares_outstanding + num_new_shares,
                },
            ),
            None => Err(LedgerError::SupplyOverflow),
        },
    }
}

/// Decides a buy-back of `num_shares` asked for by `caller`.
pub fn settle_buy_back(
    privileged_caller: &String,
    caller: &String,
    supply: Supply,
    num_shares: u32,
) -> (outcome: Result<Supply, LedgerError>)
    requires
        supply.shares_outstanding <= supply.total_shares,
    ensures
        match buy_back_rejection(
            caller@ == privileged_caller@,
            supply.shares_outstanding as nat,
            num_shares as nat,
        ) {
            Some(error) => outcome == Err::<Supply, LedgerError>(error),
            None => {
                &&& outcome matches Ok(retired)
                &&& retired.total_shares == supply.total_shares - num_shares
                &&& retired.shares_outstanding == supply.shares_outstanding - num_shares
            },
        },
{
    match verify_privileged(privileged_caller, caller) {
        Err(error) => Err(error),
        Ok(()) => {
            if num_shares > supply.shares_outstanding {
                Err(LedgerError::BuyBackExceedsOutstanding)
            } else {
                Ok(
                    Supply {
                        total_shares: supply.total_shares - num_shares,
                        shares_outstanding: supply.shares_outstanding - num_shares,
                    },
                )
            }
        },
    }
}

} // verus!
