//! The ledger itself: the stored state and the operations on it.

use crate::error::TicketError;
use crate::fees::{commission, seller_share};
use crate::identity::Identity;
use crate::ledger::{DataKey, LedgerState};
use crate::registry::Registry;
use crate::ticket::{
    lemma_ticket_states_push, lemma_ticket_states_take, ticket_states, transfer_states, Ticket,
    TicketState, Transfer,
};
use vstd::prelude::*;

verus! {

/// A ticket marketplace ledger.
///
/// Whoever calls an operation says which principal it has proven to be
/// (`caller`); the ledger decides whether that principal may do it.
pub struct SecureTicketContract {
    registry: Option<Registry>,
    tickets: Vec<Ticket>,
}

impl View for SecureTicketContract {
    type V = LedgerState;

    closed spec fn view(&self) -> LedgerState {
        stored_state(self.registry, self.tickets@)
    }
}

/// The state that a registry and a row of tickets make up.
pub open spec fn stored_state(registry: Option<Registry>, tickets: Seq<Ticket>) -> LedgerState {
    LedgerState {
        registry: match registry {
            Some(registry) => Some(registry@),
            None => None,
        },
        tickets: ticket_states(tickets),
    }
}

impl SecureTicketContract {
    #[verifier::type_invariant]
    spec fn valid(&self) -> bool {
        &&& self@.well_formed()
        &&& self.tickets@.len() <= u32::MAX
    }

    /// A ledger that has not been set up.
    pub fn new() -> (ledger: SecureTicketContract)
        ensures
            ledger@ == LedgerState::empty(),
    {
        SecureTicketContract { registry: None, tickets: Vec::new() }
    }

    /// The ledger that holds `registry` and `tickets`, as read back from a
    /// store, if they can be a ledger's state: the ticket at position `i` has
    /// id `i`, there is no ticket without a registry, and 32 bits count the
    /// tickets.
    pub fn restore(
        registry: Option<Registry>,
        tickets: Vec<Ticket>,
    ) -> (res: Option<SecureTicketContract>)
        ensures
            match res {
                Some(ledger) => {
                    &&& ledger@ == stored_state(registry, tickets@)
                    &&& ledger@.well_formed()
                },
                None => !stored_state(registry, tickets@).well_formed() || tickets@.len()
                    > u32::MAX,
            },
    {
        let ghost state = stored_state(registry, tickets@);
        if tickets.len() > u32::MAX as usize {
            return None;
        }
        if registry.is_none() && tickets.len() > 0 {
            return None;
        }
        let mut i: usize = 0;
        while i < tickets.len()
            invariant
                i <= tickets@.len() <= u32::MAX,
                state == stored_state(registry, tickets@),
                forall|j: int| 0 <= j < i ==> (#[trigger] state.tickets[j]).id == j,
            decreases tickets@.len() - i,
        {
            if tickets[i].id as usize != i {
                assert(state.tickets[i as int].id != i);
                return None;
            }
            i += 1;
        }
        Some(SecureTicketContract { registry, tickets })
    }

    /// Sets the ledger up: `owner` becomes the organizer, `token` the payment
    /// asset, and no ticket exists.
    ///
    /// A ledger is set up once, by the organizer itself.
    pub fn initialize(
        &mut self,
        caller: &Identity,
        owner: Identity,
        token: Identity,
    ) -> (res: Result<(), TicketError>)
        ensures
            res == old(self)@.initialize_outcome(caller@, owner@),
            final(self)@ == old(self)@.initialize(caller@, owner@, token@),
            final(self)@.well_formed(),
    {
        proof {
            use_type_invariant(&*self);
        }
        if self.has(DataKey::Owner) {
            return Err(TicketError::AlreadyInitialized);
        }
        if !(*caller == owner) {
            return Err(TicketError::Unauthorized);
        }
        self.registry = Some(Registry { owner, token });
        assert(self@.tickets =~= Seq::empty());
        Ok(())
    }

    /// Whether the slot named `key` holds a value.
    pub fn has(&self, key: DataKey) -> (present: bool)
        ensures
            present == self@.has(key),
            self@.well_formed(),
    {
        proof {
            use_type_invariant(self);
        }
        match key {
            DataKey::Ticket(id) => (id as usize) < self.tickets.len(),
            DataKey::TicketCount => self.registry.is_some(),
            DataKey::Owner => self.registry.is_some(),
            DataKey::Token => self.registry.is_some(),
        }
    }

    /// The organizer.
    pub fn organizer(&self) -> (res: Result<Identity, TicketError>)
        ensures
            match res {
                Ok(owner) => self@.registry is Some && owner@ == self@.registry->Some_0.owner,
                Err(e) => e == TicketError::NotInitialized && self@.registry is None,
            },
            self@.well_formed(),
    {
        proof {
            use_type_invariant(self);
        }
        match &self.registry {
            Some(registry) => Ok(registry.owner.clone()),
            None => Err(TicketError::NotInitialized),
        }
    }

    /// The asset in which tickets are paid.
    pub fn token(&self) -> (res: Result<Identity, TicketError>)
        ensures
            match res {
                Ok(token) => self@.registry is Some && token@ == self@.registry->Some_0.token,
                Err(e) => e == TicketError::NotInitialized && self@.registry is None,
            },
            self@.well_formed(),
    {
        proof {
            use_type_invariant(self);
        }
        match &self.registry {
            Some(registry) => Ok(registry.token.clone()),
            None => Err(TicketError::NotInitialized),
        }
    }

    /// The number of tickets minted so far.
    pub fn ticket_count(&self) -> (count: u32)
        ensures
            count == self@.ticket_count(),
            self@.well_formed(),
    {
        proof {
            use_type_invariant(self);
        }
        self.tickets.len() as u32
    }

    /// The ticket `ticket_id`.
    pub fn get_ticket(&self, ticket_id: u32) -> (res: Result<Ticket, TicketError>)
        ensures
            match res {
                Ok(ticket) => {
                    &&& ticket_id < self@.ticket_count()
                    &&& ticket@ == self@.tickets[ticket_id as int]
                    &&& ticket.id == ticket_id
                },
                Err(e) => e == TicketError::TicketNotFound && ticket_id >= self@.ticket_count(),
            },
            self@.well_formed(),
    {
        proof {
            use_type_invariant(self);
        }
        let index = ticket_id as usize;
        if index >= self.tickets.len() {
            return Err(TicketError::TicketNotFound);
        }
        assert(self@.tickets[index as int].id == index);
        Ok(self.tickets[index].clone())
    }

    /// The principal who holds the ticket `ticket_id`.
    pub fn get_owner(&self, ticket_id: u32) -> (res: Result<Identity, TicketError>)
        ensures
            match res {
                Ok(owner) => {
                    &&& ticket_id < self@.ticket_count()
                    &&& owner@ == self@.tickets[ticket_id as int].owner
                },
                Err(e) => e == TicketError::TicketNotFound && ticket_id >= self@.ticket_count(),
            },
            self@.well_formed(),
    {
        proof {
            use_type_invariant(self);
        }
        match self.get_ticket(ticket_id) {
            Ok(ticket) => Ok(ticket.owner),
            Err(e) => Err(e),
        }
    }

    /// The tickets that are on sale as a resale, by ascending id.
    pub fn get_resale_tickets(&self) -> (listed: Vec<Ticket>)
        ensures
            ticket_states(listed@) == self@.resale_listings(),
            self@.well_formed(),
    {
        proof {
            use_type_invariant(self);
        }
        let ghost on_resale = |t: TicketState| t.for_sale && t.is_resale;
        let mut listed: Vec<Ticket> = Vec::new();
        let mut i: usize = 0;
        assert(ticket_states(self.tickets@.take(0)) =~= Seq::empty());
        assert(ticket_states(listed@) =~= Seq::empty());
        while i < self.tickets.len()
            invariant
                i <= self.tickets@.len(),
                on_resale == |t: TicketState| t.for_sale && t.is_resale,
                ticket_states(listed@) == ticket_states(self.tickets@.take(i as int)).filter(
                    on_resale,
                ),
            decreases self.tickets@.len() - i,
        {
            let ticket = &self.tickets[i];
            proof {
                lemma_ticket_states_take(self.tickets@, i as int);
                ticket_states(self.tickets@.take(i as int)).lemma_filter_push(ticket@, on_resale);
            }
            if ticket.for_sale && ticket.is_resale {
                let copy = ticket.clone();
                proof {
                    lemma_ticket_states_push(listed@, copy);
                }
                listed.push(copy);
            }
            i += 1;
        }
        assert(self.tickets@.take(i as int) =~= self.tickets@);
        listed
    }

    /// The tickets of the event `event_id`, by ascending id.
    pub fn get_event_tickets(&self, event_id: u32) -> (found: Vec<Ticket>)
        ensures
            ticket_states(found@) == self@.event_tickets(event_id as nat),
            self@.well_formed(),
    {
        proof {
            use_type_invariant(self);
        }
        let ghost of_event = |t: TicketState| t.event_id == event_id as nat;
        let mut found: Vec<Ticket> = Vec::new();
        let mut i: usize = 0;
        assert(ticket_states(self.tickets@.take(0)) =~= Seq::empty());
        assert(ticket_states(found@) =~= Seq::empty());
        while i < self.tickets.len()
            invariant
                i <= self.tickets@.len(),
                of_event == |t: TicketState| t.event_id == event_id as nat,
                ticket_states(found@) == ticket_states(self.tickets@.take(i as int)).filter(
                    of_event,
                ),
            decreases self.tickets@.len() - i,
        {
            let ticket = &self.tickets[i];
            proof {
                lemma_ticket_states_take(self.tickets@, i as int);
                ticket_states(self.tickets@.take(i as int)).lemma_filter_push(ticket@, of_event);
            }
            if ticket.event_id == event_id {
                let copy = ticket.clone();
                proof {
                    lemma_ticket_states_push(found@, copy);
                }
                found.push(copy);
            }
            i += 1;
        }
        assert(self.tickets@.take(i as int) =~= self.tickets@);
        found
    }

    /// Mints a ticket for the event `event_id` at `price` and returns its id.
    /// The ticket is held by the organizer and is not on sale.
    ///
    /// Only the organizer may mint, and not at a negative price. The ledger
    /// cannot number more tickets than 32 bits count.
    pub fn create_ticket(
        &mut self,
        caller: &Identity,
        event_id: u32,
        price: i128,
    ) -> (res: Result<u32, TicketError>)
        requires
            old(self)@.mint_outcome(caller@, price as int) is Ok ==> old(self)@.ticket_count()
                < u32::MAX,
        ensures
            match res {
                Ok(id) => old(self)@.mint_outcome(caller@, price as int) == Ok::<nat, TicketError>(
                    id as nat,
                ),
                Err(e) => old(self)@.mint_outcome(caller@, price as int) == Err::<
                    nat,
                    TicketError,
                >(e),
            },
            final(self)@ == old(self)@.mint(caller@, event_id as nat, price as int),
            final(self)@.well_formed(),
    {
        proof {
            use_type_invariant(&*self);
        }
        if price < 0 {
            return Err(TicketError::InvalidPrice);
        }
        let owner = match &self.registry {
            None => {
                return Err(TicketError::NotInitialized);
            },
            Some(registry) => registry.owner.clone(),
        };
        if !(*caller == owner) {
            return Err(TicketError::Unauthorized);
        }
        let count = self.tickets.len();
        let id = count as u32;
        let ticket = Ticket { id, event_id, owner, price, for_sale: false, is_resale: false };
        self.add_ticket(ticket);
        assert(self@.tickets =~= old(self)@.after_mint(event_id as nat, price as int).tickets);
        Ok(id)
    }

    /// Puts the ticket `ticket_id` on sale at `new_price`. Any price is
    /// accepted.
    ///
    /// Only the holder may list a ticket, and not one that is on sale.
    pub fn resell_ticket(
        &mut self,
        caller: &Identity,
        ticket_id: u32,
        new_price: i128,
    ) -> (res: Result<(), TicketError>)
        ensures
            res == old(self)@.listing_outcome(caller@, ticket_id as nat),
            final(self)@ == old(self)@.list(caller@, ticket_id as nat, new_price as int),
            final(self)@.well_formed(),
    {
        proof {
            use_type_invariant(&*self);
        }
        let index = ticket_id as usize;
        if index >= self.tickets.len() {
            return Err(TicketError::TicketNotFound);
        }
        if !(*caller == self.tickets[index].owner) {
            return Err(TicketError::Unauthorized);
        }
        if self.tickets[index].for_sale {
            return Err(TicketError::AlreadyListed);
        }
        let listed = Ticket {
            id: self.tickets[index].id,
            event_id: self.tickets[index].event_id,
            owner: self.tickets[index].owner.clone(),
            price: new_price,
            for_sale: true,
            is_resale: true,
        };
        self.put_ticket(index, listed);
        assert(self@.tickets =~= old(self)@.after_listing(
            ticket_id as nat,
            new_price as int,
        ).tickets);
        Ok(())
    }

    /// The payments that `buyer` has to make to buy the ticket `ticket_id`,
    /// in the order in which they are to be made, or why the purchase is
    /// refused.
    pub fn payments_due(
        &self,
        caller: &Identity,
        ticket_id: u32,
        buyer: &Identity,
    ) -> (res: Result<Vec<Transfer>, TicketError>)
        ensures
            match res {
                Ok(plan) => {
                    &&& self@.purchase_check(caller@, ticket_id as nat, buyer@) is Ok
                    &&& transfer_states(plan@) == self@.payments_due(ticket_id as nat, buyer@)
                },
                Err(e) => self@.purchase_check(caller@, ticket_id as nat, buyer@) == Err::<
                    (),
                    TicketError,
                >(e),
            },
            self@.well_formed(),
    {
        proof {
            use_type_invariant(self);
        }
        let index = ticket_id as usize;
        if index >= self.tickets.len() {
            return Err(TicketError::TicketNotFound);
        }
        let ticket = &self.tickets[index];
        if !ticket.for_sale {
            return Err(TicketError::NotForSale);
        }
        if !(*caller == *buyer) {
            return Err(TicketError::Unauthorized);
        }
        match &self.registry {
            None => Err(TicketError::NotInitialized),
            Some(registry) => {
                let mut plan: Vec<Transfer> = Vec::new();
                if ticket.is_resale {
                    plan.push(
                        Transfer {
                            from: buyer.clone(),
                            to: registry.owner.clone(),
                            amount: commission(ticket.price),
                        },
                    );
                    plan.push(
                        Transfer {
                            from: buyer.clone(),
                            to: ticket.owner.clone(),
                            amount: seller_share(ticket.price),
                        },
                    );
                } else {
                    plan.push(
                        Transfer {
                            from: buyer.clone(),
                            to: registry.owner.clone(),
                            amount: ticket.price,
                        },
                    );
                }
                assert(transfer_states(plan@) =~= self@.payments_due(ticket_id as nat, buyer@));
                Ok(plan)
            },
        }
    }

    /// Hands the ticket `ticket_id` to `buyer` and takes it off the market,
    /// if the purchase is allowed and `paid` says that the payment service
    /// carried out every payment due. Otherwise nothing changes.
    pub fn buy_ticket(
        &mut self,
        caller: &Identity,
        ticket_id: u32,
        buyer: Identity,
        paid: bool,
    ) -> (res: Result<(), TicketError>)
        ensures
            res == old(self)@.purchase_outcome(caller@, ticket_id as nat, buyer@, paid),
            final(self)@ == old(self)@.purchase(caller@, ticket_id as nat, buyer@, paid),
            final(self)@.well_formed(),
    {
        proof {
            use_type_invariant(&*self);
        }
        let index = ticket_id as usize;
        if index >= self.tickets.len() {
            return Err(TicketError::TicketNotFound);
        }
        if !self.tickets[index].for_sale {
            return Err(TicketError::NotForSale);
        }
        if !(*caller == buyer) {
            return Err(TicketError::Unauthorized);
        }
        if self.registry.is_none() {
            return Err(TicketError::NotInitialized);
        }
        if !paid {
            return Err(TicketError::PaymentFailed);
        }
        let sold = Ticket {
            id: self.tickets[index].id,
            event_id: self.tickets[index].event_id,
            owner: buyer,
            price: self.tickets[index].price,
            for_sale: false,
            is_resale: false,
        };
        self.put_ticket(index, sold);
        assert(self@.tickets =~= old(self)@.after_purchase(ticket_id as nat, buyer@).tickets);
        Ok(())
    }

    /// Adds `ticket` behind the tickets that exist.
    fn add_ticket(&mut self, ticket: Ticket)
        requires
            old(self).registry is Some,
            old(self).tickets@.len() < u32::MAX,
            ticket.id == old(self).tickets@.len(),
        ensures
            final(self).registry == old(self).registry,
            final(self).tickets@ == old(self).tickets@.push(ticket),
    {
        proof {
            use_type_invariant(&*self);
        }
        let mut tickets: Vec<Ticket> = Vec::new();
        core::mem::swap(&mut tickets, &mut self.tickets);
        tickets.push(ticket);
        assert forall|i: int| 0 <= i < tickets@.len() implies (#[trigger] ticket_states(
            tickets@,
        )[i]).id == i by {
            if i < old(self).tickets@.len() {
                assert(old(self)@.tickets[i].id == i);
            }
        }
        self.tickets = tickets;
    }

    /// Puts `ticket` in the place of the ticket at `index`.
    fn put_ticket(&mut self, index: usize, ticket: Ticket)
        requires
            index < old(self).tickets@.len(),
            ticket.id == index,
        ensures
            final(self).registry == old(self).registry,
            final(self).tickets@ == old(self).tickets@.update(index as int, ticket),
    {
        proof {
            use_type_invariant(&*self);
        }
        let mut tickets: Vec<Ticket> = Vec::new();
        core::mem::swap(&mut tickets, &mut self.tickets);
        tickets[index] = ticket;
        assert forall|i: int| 0 <= i < tickets@.len() implies (#[trigger] ticket_states(
            tickets@,
        )[i]).id == i by {
            assert(old(self)@.tickets[i].id == i);
        }
        self.tickets = tickets;
    }
}

} // verus!
