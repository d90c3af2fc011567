//! The ledger as a state machine over plain mathematics: what is stored, which
//! operations are allowed, and what each allowed operation leaves behind.

use crate::error::TicketError;
use crate::fees::{organizer_fee, seller_amount};
use crate::ticket::{TicketState, TransferState};
use vstd::prelude::*;

verus! {

/// The name of a slot of the ledger's store.
#[derive(Clone, Copy, Debug, PartialEq, Eq, Structural)]
pub enum DataKey {
    /// The record of the ticket with this id.
    Ticket(u32),
    /// The number of tickets minted so far.
    TicketCount,
    /// The organizer.
    Owner,
    /// The asset in which tickets are paid.
    Token,
}

/// The configuration that is fixed when the ledger is set up.
#[verifier::ext_equal]
pub struct RegistryState {
    /// The key of the organizer.
    pub owner: Seq<char>,
    /// The key of the payment asset.
    pub token: Seq<char>,
}

/// Everything the ledger stores.
#[verifier::ext_equal]
pub struct LedgerState {
    /// The configuration, once the ledger has been set up.
    pub registry: Option<RegistryState>,
    /// The tickets, in the order in which they were minted.
    pub tickets: Seq<TicketState>,
}

impl LedgerState {
    /// The ledger before it is set up.
    pub open spec fn empty() -> LedgerState {
        LedgerState { registry: None, tickets: Seq::empty() }
    }

    /// No ticket exists before the ledger is set up, and the ticket at
    /// position `i` has id `i`.
    pub open spec fn well_formed(self) -> bool {
        &&& self.registry is None ==> self.tickets.len() == 0
        &&& forall|i: int| 0 <= i < self.tickets.len() ==> (#[trigger] self.tickets[i]).id == i
    }

    /// The number of tickets minted so far.
    pub open spec fn ticket_count(self) -> nat {
        self.tickets.len()
    }

    /// Whether the slot named `key` holds a value.
    pub open spec fn has(self, key: DataKey) -> bool {
        match key {
            DataKey::Ticket(id) => id < self.tickets.len(),
            DataKey::TicketCount => self.registry is Some,
            DataKey::Owner => self.registry is Some,
            DataKey::Token => self.registry is Some,
        }
    }

    /// Whether `caller` may set the ledger up with `owner` as organizer.
    pub open spec fn initialize_outcome(
        self,
        caller: Seq<char>,
        owner: Seq<char>,
    ) -> Result<(), TicketError> {
        if self.registry is Some {
            Err(TicketError::AlreadyInitialized)
        } else if caller != owner {
            Err(TicketError::Unauthorized)
        } else {
            Ok(())
        }
    }

    /// The ledger once it is set up: configured, with no ticket.
    pub open spec fn after_initialize(self, owner: Seq<char>, token: Seq<char>) -> LedgerState {
        LedgerState {
            registry: Some(RegistryState { owner, token }),
            tickets: Seq::empty(),
        }
    }

    /// The ledger after `caller` asked to set it up: set up if that was
    /// allowed, as before if not.
    pub open spec fn initialize(
        self,
        caller: Seq<char>,
        owner: Seq<char>,
        token: Seq<char>,
    ) -> LedgerState {
        if self.initialize_outcome(caller, owner) is Ok {
            self.after_initialize(owner, token)
        } else {
            self
        }
    }

    /// Whether `caller` may mint a ticket at `price`, and the id the ticket
    /// gets.
    pub open spec fn mint_outcome(self, caller: Seq<char>, price: int) -> Result<nat, TicketError> {
        if price < 0 {
            Err(TicketError::InvalidPrice)
        } else {
            match self.registry {
                None => Err(TicketError::NotInitialized),
                Some(registry) => if caller != registry.owner {
                    Err(TicketError::Unauthorized)
                } else {
                    Ok(self.tickets.len())
                },
            }
        }
    }

    /// The ticket that a mint creates: next in number, held by the
    /// organizer, not on sale.
    pub open spec fn fresh_ticket(self, event_id: nat, price: int) -> TicketState
        recommends
            self.registry is Some,
    {
        TicketState {
            id: self.tickets.len(),
            event_id,
            owner: self.registry->Some_0.owner,
            price,
            for_sale: false,
            is_resale: false,
        }
    }

    /// The ledger after a mint: one more ticket at the end.
    pub open spec fn after_mint(self, event_id: nat, price: int) -> LedgerState
        recommends
            self.registry is Some,
    {
        LedgerState {
            registry: self.registry,
            tickets: self.tickets.push(self.fresh_ticket(event_id, price)),
        }
    }

    /// The ledger after `caller` asked for a mint: one ticket more if that
    /// was allowed, as before if not.
    pub open spec fn mint(self, caller: Seq<char>, event_id: nat, price: int) -> LedgerState {
        if self.mint_outcome(caller, price) is Ok {
            self.after_mint(event_id, price)
        } else {
            self
        }
    }

    /// Whether `caller` may put the ticket `ticket_id` on sale.
    pub open spec fn listing_outcome(
        self,
        caller: Seq<char>,
        ticket_id: nat,
    ) -> Result<(), TicketError> {
        if ticket_id >= self.tickets.len() {
            Err(TicketError::TicketNotFound)
        } else if caller != self.tickets[ticket_id as int].owner {
            Err(TicketError::Unauthorized)
        } else if self.tickets[ticket_id as int].for_sale {
            Err(TicketError::AlreadyListed)
        } else {
            Ok(())
        }
    }

    /// The ledger after the ticket `ticket_id` is put on sale at `new_price`.
    /// Every listing counts as a resale, the first one too.
    pub open spec fn after_listing(self, ticket_id: nat, new_price: int) -> LedgerState
        recommends
            ticket_id < self.tickets.len(),
    {
        LedgerState {
            registry: self.registry,
            tickets: self.tickets.update(
                ticket_id as int,
                TicketState {
                    price: new_price,
                    for_sale: true,
                    is_resale: true,
                    ..self.tickets[ticket_id as int]
                },
            ),
        }
    }

    /// The ledger after `caller` asked to put the ticket `ticket_id` on sale:
    /// listed if that was allowed, as before if not.
    pub open spec fn list(self, caller: Seq<char>, ticket_id: nat, new_price: int) -> LedgerState {
        if self.listing_outcome(caller, ticket_id) is Ok {
            self.after_listing(ticket_id, new_price)
        } else {
            self
        }
    }

    /// Whether `caller` may buy the ticket `ticket_id` for `buyer`, before
    /// any money moves.
    pub open spec fn purchase_check(
        self,
        caller: Seq<char>,
        ticket_id: nat,
        buyer: Seq<char>,
    ) -> Result<(), TicketError> {
        if ticket_id >= self.tickets.len() {
            Err(TicketError::TicketNotFound)
        } else if !self.tickets[ticket_id as int].for_sale {
            Err(TicketError::NotForSale)
        } else if caller != buyer {
            Err(TicketError::Unauthorized)
        } else if self.registry is None {
            Err(TicketError::NotInitialized)
        } else {
            Ok(())
        }
    }

    /// The payments that buying the ticket `ticket_id` takes, in the order in
    /// which they are made. A resale pays the commission to the organizer and
    /// the rest to the seller; any other sale pays the whole price to the
    /// organizer.
    pub open spec fn payments_due(self, ticket_id: nat, buyer: Seq<char>) -> Seq<TransferState>
        recommends
            ticket_id < self.tickets.len(),
            self.registry is Some,
    {
        let ticket = self.tickets[ticket_id as int];
        let organizer = self.registry->Some_0.owner;
        if ticket.is_resale {
            seq![
                TransferState { from: buyer, to: organizer, amount: organizer_fee(ticket.price) },
                TransferState {
                    from: buyer,
                    to: ticket.owner,
                    amount: seller_amount(ticket.price),
                },
            ]
        } else {
            seq![TransferState { from: buyer, to: organizer, amount: ticket.price }]
        }
    }

    /// Whether the purchase goes through, given whether the payment service
    /// carried out every payment due.
    pub open spec fn purchase_outcome(
        self,
        caller: Seq<char>,
        ticket_id: nat,
        buyer: Seq<char>,
        paid: bool,
    ) -> Result<(), TicketError> {
        match self.purchase_check(caller, ticket_id, buyer) {
            Err(e) => Err(e),
            Ok(_) => if paid {
                Ok(())
            } else {
                Err(TicketError::PaymentFailed)
            },
        }
    }

    /// The ledger after `buyer` bought the ticket `ticket_id`: the buyer
    /// holds it, and it is off the market.
    pub open spec fn after_purchase(self, ticket_id: nat, buyer: Seq<char>) -> LedgerState
        recommends
            ticket_id < self.tickets.len(),
    {
        LedgerState {
            registry: self.registry,
            tickets: self.tickets.update(
                ticket_id as int,
                TicketState {
                    owner: buyer,
                    for_sale: false,
                    is_resale: false,
                    ..self.tickets[ticket_id as int]
                },
            ),
        }
    }

    /// The ledger after `caller` asked to buy the ticket `ticket_id` for
    /// `buyer`: sold if that was allowed and paid, as before if not.
    pub open spec fn purchase(
        self,
        caller: Seq<char>,
        ticket_id: nat,
        buyer: Seq<char>,
        paid: bool,
    ) -> LedgerState {
        if self.purchase_outcome(caller, ticket_id, buyer, paid) is Ok {
            self.after_purchase(ticket_id, buyer)
        } else {
            self
        }
    }

    /// The tickets that are on sale as a resale, by ascending id.
    pub open spec fn resale_listings(self) -> Seq<TicketState> {
        self.tickets.filter(|t: TicketState| t.for_sale && t.is_resale)
    }

    /// The tickets of the event `event_id`, by ascending id.
    pub open spec fn event_tickets(self, event_id: nat) -> Seq<TicketState> {
        self.tickets.filter(|t: TicketState| t.event_id == event_id)
    }
}

} // verus!
