//! Why the ledger turns an operation down.

use vstd::prelude::*;

verus! {

/// The reason an operation was refused. A refused operation changes nothing.
#[derive(Clone, Copy, Debug, PartialEq, Eq, Structural)]
pub enum TicketError {
    /// The registry was set up before.
    AlreadyInitialized,
    /// The registry has not been set up.
    NotInitialized,
    /// A ticket was to be minted at a negative price.
    InvalidPrice,
    /// No ticket has the given id.
    TicketNotFound,
    /// The caller is not the principal that the operation asks for.
    Unauthorized,
    /// The ticket is on sale already.
    AlreadyListed,
    /// The ticket is not on sale.
    NotForSale,
    /// The payment service did not carry out the payment.
    PaymentFailed,
}

impl TicketError {
    /// The short text that names this error.
    pub open spec fn text(self) -> Seq<char> {
        match self {
            TicketError::AlreadyInitialized => "already_init"@,
            TicketError::NotInitialized => "Contract not initialized"@,
            TicketError::InvalidPrice => "invalid_price"@,
            TicketError::TicketNotFound => "Ticket not found"@,
            TicketError::Unauthorized => "unauthorized"@,
            TicketError::AlreadyListed => "already_sale"@,
            TicketError::NotForSale => "not_sale"@,
            TicketError::PaymentFailed => "payment_failed"@,
        }
    }

    /// The short text that names this error, for a caller to report.
    pub fn message(&self) -> (msg: &'static str)
        ensures
            msg@ == self.text(),
    {
        match self {
            TicketError::AlreadyInitialized => "already_init",
            TicketError::NotInitialized => "Contract not initialized",
            TicketError::InvalidPrice => "invalid_price",
            TicketError::TicketNotFound => "Ticket not found",
            TicketError::Unauthorized => "unauthorized",
            TicketError::AlreadyListed => "already_sale",
            TicketError::NotForSale => "not_sale",
            TicketError::PaymentFailed => "payment_failed",
        }
    }
}

} // verus!
