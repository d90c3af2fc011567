//! A ticket marketplace ledger.
//!
//! An organizer sets the ledger up and mints numbered tickets. The holder of
//! a ticket lists it for sale, and a buyer purchases a listed ticket. A
//! resale pays a commission to the organizer and the rest to the seller; any
//! other sale pays the organizer alone.
//!
//! The ledger decides and keeps the records. It neither checks signatures nor
//! moves money: its caller does both and tells the ledger the outcome.
//!
//! * Every operation that changes the ledger takes the `caller`: the
//!   principal whose proof of identity the caller of the library has checked.
//!   The ledger refuses the operation unless that is the principal the
//!   operation is reserved for.
//! * A purchase takes two steps. [`SecureTicketContract::payments_due`]
//!   says which payments the purchase takes. The caller has the payment
//!   service make them, all or none, and hands the outcome to
//!   [`SecureTicketContract::buy_ticket`], which transfers the ticket only if
//!   they were made.
//!
//! An operation that is refused returns a [`TicketError`] and leaves the
//! ledger as it was.
//!
//! The module [`ledger`] holds the rules as a state machine over plain
//! mathematics, [`contract`] the executable ledger that follows it, and
//! [`laws`] what is proved of every ledger.

pub mod contract;
pub mod error;
pub mod fees;
pub mod identity;
pub mod laws;
pub mod ledger;
pub mod registry;
pub mod ticket;

pub use contract::SecureTicketContract;
pub use error::TicketError;
pub use identity::Identity;
pub use ledger::DataKey;
pub use registry::Registry;
pub use ticket::{Ticket, Transfer};
