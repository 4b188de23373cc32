//! The ways in which a ledger operation is rejected.

use vstd::prelude::*;

verus! {

/// The broad class of a rejection. A payout that fails after a sale is not
/// among them: it happens outside the ledger, which never observes it.
#[derive(Clone, Copy, Debug, PartialEq, Eq, Structural)]
pub enum ErrorKind {
    /// The ledger was used outside its lifecycle.
    Usage,
    /// An argument was refused by the ledger's rules.
    Validation,
    /// The caller may not perform the operation.
    Authorization,
}

/// Why an operation was rejected. A rejected operation changes nothing.
#[derive(Clone, Copy, Debug, PartialEq, Eq, Structural)]
pub enum LedgerError {
    /// An operation was attempted before the ledger was initialized.
    NotInitialized,
    /// The ledger was initialized a second time.
    AlreadyInitialized,
    /// A purchase of no shares, or of more shares than are outstanding.
    InvalidBuyQuantity,
    /// The attached payment does not cover the price of the shares.
    InsufficientDeposit,
    /// A sale of no shares, or of more shares than the seller holds.
    InvalidSellQuantity,
    /// The proceeds of a sale do not fit the payment type.
    ProceedsOverflow,
    /// A supply-changing operation by someone other than the privileged caller.
    Unauthorized,
    /// An issuance that would push the total past what the counter can hold.
    SupplyOverflow,
    /// A buy-back of more shares than are outstanding.
    BuyBackExceedsOutstanding,
}

impl LedgerError {
    /// The class that each error belongs to.
    pub open spec fn spec_kind(self) -> ErrorKind {
        match self {
            LedgerError::NotInitialized | LedgerError::AlreadyInitialized => ErrorKind::Usage,
            LedgerError::Unauthorized => ErrorKind::Authorization,
            _ => ErrorKind::Validation,
        }
    }

    /// The stable identifier that callers branch on.
    pub open spec fn spec_identifier(self) -> Seq<char> {
        match self {
            LedgerError::NotInitialized => "SHOULD_INIT_BEFORE_USE"@,
            LedgerError::AlreadyInitialized => "ALREADY_INITIALIZED"@,
            LedgerError::InvalidBuyQuantity => "ERR_INVALID_BUY_QUANTITY"@,
            LedgerError::InsufficientDeposit => "ERR_INSUFFICIENT_DEPOSIT"@,
            LedgerError::InvalidSellQuantity => "ERR_INVALID_SELL_QUANTITY"@,
            LedgerError::ProceedsOverflow => "ERR_PROCEEDS_OVERFLOW"@,
            LedgerError::Unauthorized =>
                "Privileged method can only be invoked by authorized multisig contract as the predecessor"@,
            LedgerError::SupplyOverflow => "ERR_SUPPLY_OVERFLOW"@,
            LedgerError::BuyBackExceedsOutstanding =>
                "Cannot buy back more than outstanding shares"@,
        }
    }

    /// Returns the class of this error.
    pub fn kind(&self) -> (kind: ErrorKind)
        ensures
            kind == self.spec_kind(),
    {
        match self {
            LedgerError::NotInitialized => ErrorKind::Usage,
            LedgerError::AlreadyInitialized => ErrorKind::Usage,
            LedgerError::Unauthorized => ErrorKind::Authorization,
            LedgerError::InvalidBuyQuantity => ErrorKind::Validation,
            LedgerError::InsufficientDeposit => ErrorKind::Validation,
            LedgerError::InvalidSellQuantity => ErrorKind::Validation,
            LedgerError::ProceedsOverflow => ErrorKind::Validation,
            LedgerError::SupplyOverflow => ErrorKind::Validation,
            LedgerError::BuyBackExceedsOutstanding => ErrorKind::Validation,
        }
    }

    /// Returns the identifier of this error.
    pub fn identifier(&self) -> (id: &'static str)
        ensures
            id@ == self.spec_identifier(),
    {
        match self {
            LedgerError::NotInitialized => "SHOULD_INIT_BEFORE_USE",
            LedgerError::AlreadyInitialized => "ALREADY_INITIALIZED",
            LedgerError::InvalidBuyQuantity => "ERR_INVALID_BUY_QUANTITY",
            LedgerError::InsufficientDeposit => "ERR_INSUFFICIENT_DEPOSIT",
            LedgerError::InvalidSellQuantity => "ERR_INVALID_SELL_QUANTITY",
            LedgerError::ProceedsOverflow => "ERR_PROCEEDS_OVERFLOW",
            LedgerError::Unauthorized =>
                "Privileged method can only be invoked by authorized multisig contract as the predecessor",
            LedgerError::SupplyOverflow => "ERR_SUPPLY_OVERFLOW",
            LedgerError::BuyBackExceedsOutstanding =>
                "Cannot buy back more than outstanding shares",
        }
    }
}

/// No two errors share an identifier.
pub proof fn lemma_identifiers_distinct(a: LedgerError, b: LedgerError)
    requires
        a != b,
    ensures
        a.spec_identifier() != b.spec_identifier(),
{
    reveal_strlit("SHOULD_INIT_BEFORE_USE");
    reveal_strlit("ALREADY_INITIALIZED");
    reveal_strlit("ERR_INVALID_BUY_QUANTITY");
    reveal_strlit("ERR_INSUFFICIENT_DEPOSIT");
    reveal_strlit("ERR_INVALID_SELL_QUANTITY");
    reveal_strlit("ERR_PROCEEDS_OVERFLOW");
    reveal_strlit(
        "Privileged method can only be invoked by authorized multisig contract as the predecessor",
    );
    reveal_strlit("ERR_SUPPLY_OVERFLOW");
    reveal_strlit("Cannot buy back more than outstanding shares");
    let x = a.spec_identifier();
    let y = b.spec_identifier();
    if x.len() == y.len() {
        assert(x[4] != y[4] || x[12] != y[12]);
    }
}

} // verus!
