//! What holds of the ledger whatever is done with it.

use vstd::prelude::*;
use crate::error::LedgerError;
use crate::holdings::{lemma_holding_within_total, lemma_total_held_empty, lemma_total_held_insert};
use crate::model::{LedgerView, Operation};
use crate::pricing::cost_of;

verus! {

/// A freshly initialized ledger is consistent: all its shares are
/// outstanding and nobody holds any.
pub proof fn lemma_initial_consistent(
    ticker: Seq<char>,
    total_shares: nat,
    price_per_share: nat,
    allowed_admin_caller: Seq<char>,
)
    requires
        total_shares <= u32::MAX,
        price_per_share <= u32::MAX,
    ensures
        LedgerView::initial(
            ticker,
            total_shares,
            price_per_share,
            allowed_admin_caller,
        ).consistent(),
{
    lemma_total_held_empty();
}

/// Whether an operation is accepted or refused, it leaves a consistent
/// ledger consistent: no more shares outstanding than exist, and the
/// holdings of all accounts adding up to the shares that are not outstanding.
pub proof fn lemma_operation_keeps_consistent(ledger: LedgerView, operation: Operation)
    requires
        ledger.consistent(),
    ensures
        ledger.after(operation).consistent(),
{
    match operation {
        Operation::Buy { caller, num_shares, attached_deposit } => {
            lemma_total_held_insert(
                ledger.share_ownership,
                caller,
                ledger.shares_owned(caller) + num_shares,
            );
        },
        Operation::Sell { caller, num_shares } => {
            lemma_holding_within_total(ledger.share_ownership, caller);
            lemma_total_held_insert(
                ledger.share_ownership,
                caller,
                (ledger.shares_owned(caller) - num_shares) as nat,
            );
        },
        Operation::Issue { caller, num_new_shares } => {},
        Operation::BuyBack { caller, num_shares } => {},
    }
}

/// Any series of operations, accepted or refused, leaves a consistent
/// ledger consistent.
pub proof fn lemma_operations_keep_consistent(ledger: LedgerView, operations: Seq<Operation>)
    requires
        ledger.consistent(),
    ensures
        ledger.after_all(operations).consistent(),
    decreases operations.len(),
{
    if operations.len() > 0 {
        lemma_operations_keep_consistent(ledger, operations.drop_last());
        lemma_operation_keeps_consistent(
            ledger.after_all(operations.drop_last()),
            operations.last(),
        );
    }
}

/// Every state that can be reached from an initialization, by any
/// operations in any order, is consistent.
pub proof fn lemma_reachable_consistent(
    ticker: Seq<char>,
    total_shares: nat,
    price_per_share: nat,
    allowed_admin_caller: Seq<char>,
    operations: Seq<Operation>,
)
    requires
        total_shares <= u32::MAX,
        price_per_share <= u32::MAX,
    ensures
        LedgerView::initial(ticker, total_shares, price_per_share, allowed_admin_caller).after_all(
            operations,
        ).consistent(),
{
    lemma_initial_consistent(ticker, total_shares, price_per_share, allowed_admin_caller);
    lemma_operations_keep_consistent(
        LedgerView::initial(ticker, total_shares, price_per_share, allowed_admin_caller),
        operations,
    );
}

/// No operation changes the ticker, the price or the privileged caller, and
/// only an issuance or a buy-back changes the total.
pub proof fn lemma_operation_keeps_configuration(ledger: LedgerView, operation: Operation)
    ensures
        ledger.after(operation).ticker == ledger.ticker,
        ledger.after(operation).price_per_share == ledger.price_per_share,
        ledger.after(operation).allowed_admin_caller == ledger.allowed_admin_caller,
        operation is Buy || operation is Sell ==> ledger.after(operation).total_shares
            == ledger.total_shares,
{
}

/// Buying shares and selling them straight back restores the buyer's
/// holding and the outstanding shares, moves no other holding and no other
/// counter, and pays back exactly the price of the purchase.
pub proof fn lemma_buy_then_sell_restores(
    ledger: LedgerView,
    account: Seq<char>,
    num_shares: nat,
    attached_deposit: nat,
)
    requires
        0 < num_shares <= ledger.shares_outstanding,
        cost_of(num_shares, ledger.price_per_share) <= attached_deposit <= u128::MAX,
    ensures
        ledger.buy(account, num_shares, attached_deposit) matches Ok(bought) && bought.sell(
            account,
            num_shares,
        ) matches Ok(restored) && {
            &&& restored.shares_outstanding == ledger.shares_outstanding
            &&& restored.total_shares == ledger.total_shares
            &&& restored.price_per_share == ledger.price_per_share
            &&& forall|other: Seq<char>| restored.shares_owned(other) == ledger.shares_owned(other)
            &&& bought.payout(num_shares) == cost_of(num_shares, ledger.price_per_share)
        },
{
}

/// A purchase of no shares is refused as an invalid quantity.
pub proof fn lemma_buy_nothing_refused(ledger: LedgerView, caller: Seq<char>, attached_deposit: nat)
    ensures
        ledger.buy(caller, 0, attached_deposit) == Err::<LedgerView, LedgerError>(
            LedgerError::InvalidBuyQuantity,
        ),
{
}

/// A purchase of more shares than are outstanding is refused as an invalid
/// quantity, beginning with one share too many.
pub proof fn lemma_buy_beyond_outstanding_refused(
    ledger: LedgerView,
    caller: Seq<char>,
    num_shares: nat,
    attached_deposit: nat,
)
    requires
        num_shares > ledger.shares_outstanding,
    ensures
        ledger.buy(caller, num_shares, attached_deposit) == Err::<LedgerView, LedgerError>(
            LedgerError::InvalidBuyQuantity,
        ),
        ledger.buy(caller, ledger.shares_outstanding + 1, attached_deposit) == Err::<
            LedgerView,
            LedgerError,
        >(LedgerError::InvalidBuyQuantity),
{
}

/// A purchase of an admissible quantity with less attached than its price
/// is refused as an insufficient deposit, and the ledger stays as it was.
pub proof fn lemma_buy_underpaid_refused(
    ledger: LedgerView,
    caller: Seq<char>,
    num_shares: nat,
    attached_deposit: nat,
)
    requires
        0 < num_shares <= ledger.shares_outstanding,
        attached_deposit < cost_of(num_shares, ledger.price_per_share),
    ensures
        ledger.buy(caller, num_shares, attached_deposit) == Err::<LedgerView, LedgerError>(
            LedgerError::InsufficientDeposit,
        ),
        ledger.after((Operation::Buy { caller, num_shares, attached_deposit })) == ledger,
{
}

/// A sale of no shares, or of more shares than the seller holds, is refused
/// as an invalid quantity. An account that never bought has nothing to sell.
pub proof fn lemma_sell_beyond_holding_refused(
    ledger: LedgerView,
    caller: Seq<char>,
    num_shares: nat,
)
    requires
        num_shares == 0 || num_shares > ledger.shares_owned(caller),
    ensures
        ledger.sell(caller, num_shares) == Err::<LedgerView, LedgerError>(
            LedgerError::InvalidSellQuantity,
        ),
        !ledger.share_ownership.dom().contains(caller) ==> ledger.shares_owned(caller) == 0,
{
}

/// Only the privileged caller changes the supply: from anyone else an
/// issuance and a buy-back are refused as unauthorized, whatever the
/// quantity.
pub proof fn lemma_supply_change_needs_privilege(
    ledger: LedgerView,
    caller: Seq<char>,
    num_shares: nat,
)
    requires
        caller != ledger.allowed_admin_caller,
    ensures
        ledger.issue(caller, num_shares) == Err::<LedgerView, LedgerError>(
            LedgerError::Unauthorized,
        ),
        ledger.buy_back(caller, num_shares) == Err::<LedgerView, LedgerError>(
            LedgerError::Unauthorized,
        ),
{
}

/// An issuance by the privileged caller that the total can hold succeeds and
/// raises the total and the outstanding shares by the issued quantity.
pub proof fn lemma_privileged_issue_succeeds(ledger: LedgerView, num_new_shares: nat)
    requires
        ledger.total_shares + num_new_shares <= u32::MAX,
    ensures
        ledger.issue(ledger.allowed_admin_caller, num_new_shares) matches Ok(issued) && {
            &&& issued.total_shares == ledger.total_shares + num_new_shares
            &&& issued.shares_outstanding == ledger.shares_outstanding + num_new_shares
            &&& issued.price_per_share == ledger.price_per_share
            &&& issued.share_ownership == ledger.share_ownership
        },
{
}

/// A buy-back by the privileged caller of no more than the outstanding
/// shares succeeds and lowers the total and the outstanding shares by the
/// quantity bought back.
pub proof fn lemma_privileged_buy_back_succeeds(ledger: LedgerView, num_shares: nat)
    requires
        ledger.consistent(),
        num_shares <= ledger.shares_outstanding,
    ensures
        ledger.buy_back(ledger.allowed_admin_caller, num_shares) matches Ok(retired) && {
            &&& retired.total_shares == ledger.total_shares - num_shares
            &&& retired.shares_outstanding == ledger.shares_outstanding - num_shares
            &&& retired.price_per_share == ledger.price_per_share
            &&& retired.share_ownership == ledger.share_ownership
        },
{
}

/// A buy-back of more shares than are outstanding is refused, whoever asks,
/// and the ledger stays as it was.
pub proof fn lemma_buy_back_beyond_outstanding_refused(
    ledger: LedgerView,
    caller: Seq<char>,
    num_shares: nat,
)
    requires
        num_shares > ledger.shares_outstanding,
    ensures
        ledger.buy_back(caller, num_shares) is Err,
        ledger.is_privileged(caller) ==> ledger.buy_back(caller, num_shares) == Err::<
            LedgerView,
            LedgerError,
        >(LedgerError::BuyBackExceedsOutstanding),
        ledger.after((Operation::BuyBack { caller, num_shares })) == ledger,
{
}

} // verus!
