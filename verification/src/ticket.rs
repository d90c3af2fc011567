//! Tickets and payment orders: the records the ledger keeps and hands out.

use crate::identity::Identity;
use vstd::prelude::*;
use vstd::std_specs::cmp::PartialEqSpecImpl;

verus! {

/// What a ticket is, as plain mathematics.
#[verifier::ext_equal]
pub struct TicketState {
    /// The ticket's number.
    pub id: nat,
    /// The event the ticket admits to.
    pub event_id: nat,
    /// The key of the principal who holds the ticket.
    pub owner: Seq<char>,
    /// The price asked, in the smallest unit of the payment asset.
    pub price: int,
    /// Whether the ticket can be bought now.
    pub for_sale: bool,
    /// Whether the current listing is a resale.
    pub is_resale: bool,
}

/// A ticket of the ledger.
#[derive(Debug)]
pub struct Ticket {
    /// The ticket's number.
    pub id: u32,
    /// The event the ticket admits to.
    pub event_id: u32,
    /// The principal who holds the ticket.
    pub owner: Identity,
    /// The price asked, in the smallest unit of the payment asset.
    pub price: i128,
    /// Whether the ticket can be bought now.
    pub for_sale: bool,
    /// Whether the current listing is a resale.
    pub is_resale: bool,
}

impl View for Ticket {
    type V = TicketState;

    open spec fn view(&self) -> TicketState {
        TicketState {
            id: self.id as nat,
            event_id: self.event_id as nat,
            owner: self.owner@,
            price: self.price as int,
            for_sale: self.for_sale,
            is_resale: self.is_resale,
        }
    }
}

impl Clone for Ticket {
    fn clone(&self) -> (copy: Ticket)
        ensures
            copy@ == self@,
    {
        Ticket {
            id: self.id,
            event_id: self.event_id,
            owner: self.owner.clone(),
            price: self.price,
            for_sale: self.for_sale,
            is_resale: self.is_resale,
        }
    }
}

impl PartialEq for Ticket {
    fn eq(&self, other: &Ticket) -> (same: bool) {
        self.id == other.id
            && self.event_id == other.event_id
            && self.owner == other.owner
            && self.price == other.price
            && self.for_sale == other.for_sale
            && self.is_resale == other.is_resale
    }
}

impl Eq for Ticket {}

impl PartialEqSpecImpl for Ticket {
    open spec fn obeys_eq_spec() -> bool {
        true
    }

    open spec fn eq_spec(&self, other: &Ticket) -> bool {
        self@ == other@
    }
}

/// The states of a row of tickets, in the same order.
pub open spec fn ticket_states(tickets: Seq<Ticket>) -> Seq<TicketState> {
    tickets.map_values(|t: Ticket| t@)
}

/// Adding a ticket at the end adds its state at the end.
pub proof fn lemma_ticket_states_push(tickets: Seq<Ticket>, ticket: Ticket)
    ensures
        ticket_states(tickets.push(ticket)) == ticket_states(tickets).push(ticket@),
{
    assert(ticket_states(tickets.push(ticket)) =~= ticket_states(tickets).push(ticket@));
}

/// The states of the first `i + 1` tickets are those of the first `i`,
/// followed by the state of the ticket at `i`.
pub proof fn lemma_ticket_states_take(tickets: Seq<Ticket>, i: int)
    requires
        0 <= i < tickets.len(),
    ensures
        ticket_states(tickets.take(i + 1)) == ticket_states(tickets.take(i)).push(tickets[i]@),
{
    assert(tickets.take(i + 1) =~= tickets.take(i).push(tickets[i]));
    lemma_ticket_states_push(tickets.take(i), tickets[i]);
}

/// What a payment order is, as plain mathematics.
#[verifier::ext_equal]
pub struct TransferState {
    /// The key of the principal who pays.
    pub from: Seq<char>,
    /// The key of the principal who is paid.
    pub to: Seq<char>,
    /// How much is paid, in the smallest unit of the payment asset.
    pub amount: int,
}

/// An order to the payment service: move `amount` from one principal to
/// another.
#[derive(Debug)]
pub struct Transfer {
    /// The principal who pays.
    pub from: Identity,
    /// The principal who is paid.
    pub to: Identity,
    /// How much is paid, in the smallest unit of the payment asset.
    pub amount: i128,
}

impl View for Transfer {
    type V = TransferState;

    open spec fn view(&self) -> TransferState {
        TransferState { from: self.from@, to: self.to@, amount: self.amount as int }
    }
}

impl Clone for Transfer {
    fn clone(&self) -> (copy: Transfer)
        ensures
            copy@ == self@,
    {
        Transfer { from: self.from.clone(), to: self.to.clone(), amount: self.amount }
    }
}

impl PartialEq for Transfer {
    fn eq(&self, other: &Transfer) -> (same: bool) {
        self.from == other.from && self.to == other.to && self.amount == other.amount
    }
}

impl Eq for Transfer {}

impl PartialEqSpecImpl for Transfer {
    open spec fn obeys_eq_spec() -> bool {
        true
    }

    open spec fn eq_spec(&self, other: &Transfer) -> bool {
        self@ == other@
    }
}

/// The states of a row of payment orders, in the same order.
pub open spec fn transfer_states(transfers: Seq<Transfer>) -> Seq<TransferState> {
    transfers.map_values(|t: Transfer| t@)
}

} // verus!
