//! A fixed-price share-issuance ledger.
//!
//! The ledger tracks a pool of company shares. Any account may buy
//! outstanding shares against an attached payment and sell its shares back
//! at the same price; one privileged caller may issue new shares and buy
//! outstanding ones back. Every operation validates before it commits, so a
//! refused operation leaves the ledger exactly as it was.
//!
//! * [`model`] is the ledger as mathematics: its state, its invariant and
//!   its transitions. [`laws`] proves what holds of that model.
//! * [`contract`] is the executable ledger, specified against the model, and
//!   [`ledger`] adds the lifecycle: nothing works before initialization, and
//!   initialization happens once.
//! * [`rules`] holds the decisions of the four operations on plain numbers,
//!   for a caller that keeps the balances in a store of its own.
//! * [`pricing`], [`access`] and [`ownership`] are the parts the operations
//!   are built from, [`holdings`] is the arithmetic on the ownership mapping,
//!   and [`error`] names the refusals.
//!
//! The ledger does not move money: a sale answers with a [`PaymentRequest`]
//! and is booked at once, whether or not the payment is ever carried out.

pub mod access;
pub mod contract;
pub mod error;
pub mod holdings;
pub mod laws;
pub mod ledger;
pub mod model;
pub mod ownership;
pub mod pricing;
pub mod rules;

pub use contract::Contract;
pub use contract::PaymentRequest;
pub use error::ErrorKind;
pub use error::LedgerError;
pub use ledger::Ledger;
pub use model::LedgerView;
pub use ownership::OwnershipStore;
pub use pricing::YOCTO_MULTIPLIER;
pub use rules::Supply;
pub use rules::Trade;
