//! What holds of the ledger whatever is asked of it.

use crate::error::TicketError;
use crate::fees::{organizer_fee, seller_amount};
use crate::ledger::LedgerState;
use crate::ticket::{TicketState, TransferState};
use vstd::prelude::*;

verus! {

/// Something asked of the ledger, with all that the ledger is told.
pub enum Request {
    /// `caller` asks to set the ledger up.
    Initialize { caller: Seq<char>, owner: Seq<char>, token: Seq<char> },
    /// `caller` asks for a new ticket.
    Mint { caller: Seq<char>, event_id: nat, price: int },
    /// `caller` asks to put a ticket on sale.
    List { caller: Seq<char>, ticket_id: nat, new_price: int },
    /// `caller` asks to buy a ticket for `buyer`; `paid` is the payment
    /// service's report.
    Purchase { caller: Seq<char>, ticket_id: nat, buyer: Seq<char>, paid: bool },
}

impl Request {
    /// Whether this request is a mint that the ledger `s` allows.
    pub open spec fn mints(self, s: LedgerState) -> bool {
        self matches Request::Mint { caller, price, .. } && s.mint_outcome(caller, price) is Ok
    }
}

/// A request to mint one ticket.
pub struct MintRequest {
    /// The event the ticket admits to.
    pub event_id: nat,
    /// The price of the ticket.
    pub price: int,
}

impl LedgerState {
    /// The ledger after it has served `request`.
    pub open spec fn apply(self, request: Request) -> LedgerState {
        match request {
            Request::Initialize { caller, owner, token } => self.initialize(caller, owner, token),
            Request::Mint { caller, event_id, price } => self.mint(caller, event_id, price),
            Request::List { caller, ticket_id, new_price } => self.list(
                caller,
                ticket_id,
                new_price,
            ),
            Request::Purchase { caller, ticket_id, buyer, paid } => self.purchase(
                caller,
                ticket_id,
                buyer,
                paid,
            ),
        }
    }

    /// The ledger after it has served `requests`, one after the other.
    pub open spec fn run(self, requests: Seq<Request>) -> LedgerState
        decreases requests.len(),
    {
        if requests.len() == 0 {
            self
        } else {
            self.run(requests.drop_last()).apply(requests.last())
        }
    }

    /// The ledger after the mints `requests`, one after the other.
    pub open spec fn after_mints(self, requests: Seq<MintRequest>) -> LedgerState
        decreases requests.len(),
    {
        if requests.len() == 0 {
            self
        } else {
            let last = requests.last();
            self.after_mints(requests.drop_last()).after_mint(last.event_id, last.price)
        }
    }

    /// The ids of the tickets, in the order in which the tickets are stored.
    pub open spec fn ticket_ids(self) -> Seq<nat> {
        self.tickets.map_values(|t: TicketState| t.id)
    }
}

/// The ids of a well-formed ledger's tickets are the numbers from zero up to
/// the ticket count, each once and in order.
pub proof fn lemma_ids_are_dense(s: LedgerState)
    requires
        s.well_formed(),
    ensures
        s.ticket_ids() == Seq::new(s.ticket_count(), |i: int| i as nat),
        forall|i: int, j: int|
            #![trigger s.tickets[i], s.tickets[j]]
            0 <= i < j < s.ticket_count() ==> s.tickets[i].id != s.tickets[j].id,
{
    assert(s.ticket_ids() =~= Seq::new(s.ticket_count(), |i: int| i as nat));
}

/// A request stays within the rules of the ledger: whether it is allowed or
/// not, a well-formed ledger stays well-formed, a registry that is set stays
/// as it is, and no ticket is removed, renumbered or moved to another event.
/// The ticket count grows by one on a mint that is allowed, and on nothing
/// else.
pub proof fn lemma_request_keeps_ledger_sound(s: LedgerState, request: Request)
    requires
        s.well_formed(),
    ensures
        s.apply(request).well_formed(),
        s.registry is Some ==> s.apply(request).registry == s.registry,
        s.apply(request).ticket_count() == s.ticket_count() + (if request.mints(s) {
            1nat
        } else {
            0nat
        }),
        forall|i: int|
            0 <= i < s.ticket_count() ==> {
                &&& (#[trigger] s.apply(request).tickets[i]).id == s.tickets[i].id
                &&& s.apply(request).tickets[i].event_id == s.tickets[i].event_id
            },
{
}

/// Whatever requests a new ledger has served, it is well-formed: the ids of
/// its tickets are the numbers from zero up to the ticket count, each once
/// and in order.
pub proof fn lemma_every_reachable_ledger_is_well_formed(requests: Seq<Request>)
    ensures
        LedgerState::empty().run(requests).well_formed(),
        LedgerState::empty().run(requests).ticket_ids() == Seq::new(
            LedgerState::empty().run(requests).ticket_count(),
            |i: int| i as nat,
        ),
    decreases requests.len(),
{
    if requests.len() > 0 {
        lemma_every_reachable_ledger_is_well_formed(requests.drop_last());
        lemma_request_keeps_ledger_sound(
            LedgerState::empty().run(requests.drop_last()),
            requests.last(),
        );
    }
    lemma_ids_are_dense(LedgerState::empty().run(requests));
}

/// A mint gives the new ticket the id that equals the ticket count before
/// it, raises the count by one, and leaves the tickets that existed as they
/// were.
pub proof fn lemma_mint_takes_next_id(s: LedgerState, caller: Seq<char>, event_id: nat, price: int)
    requires
        s.mint_outcome(caller, price) is Ok,
    ensures
        s.mint_outcome(caller, price) == Ok::<nat, TicketError>(s.ticket_count()),
        s.mint(caller, event_id, price).ticket_count() == s.ticket_count() + 1,
        s.mint(caller, event_id, price).tickets.last() == s.fresh_ticket(event_id, price),
        s.mint(caller, event_id, price).tickets.drop_last() == s.tickets,
{
    assert(s.mint(caller, event_id, price).tickets.drop_last() =~= s.tickets);
}

/// After any row of mints on a ledger that is set up, the ids of the tickets
/// are the numbers from zero up to the ticket count, without a gap and
/// without a repeat, and the count has grown by the number of mints.
pub proof fn lemma_mints_number_tickets_densely(s: LedgerState, requests: Seq<MintRequest>)
    requires
        s.well_formed(),
        s.registry is Some,
    ensures
        s.after_mints(requests).well_formed(),
        s.after_mints(requests).registry == s.registry,
        s.after_mints(requests).ticket_count() == s.ticket_count() + requests.len(),
        s.after_mints(requests).ticket_ids() == Seq::new(
            s.ticket_count() + requests.len(),
            |i: int| i as nat,
        ),
    decreases requests.len(),
{
    if requests.len() > 0 {
        lemma_mints_number_tickets_densely(s, requests.drop_last());
    }
    lemma_ids_are_dense(s.after_mints(requests));
}

/// A mint at a negative price is refused as an invalid price, whoever asks
/// and whatever the ledger holds, and the ticket count stays as it was.
pub proof fn lemma_negative_price_is_refused(
    s: LedgerState,
    caller: Seq<char>,
    event_id: nat,
    price: int,
)
    requires
        price < 0,
    ensures
        s.mint_outcome(caller, price) == Err::<nat, TicketError>(TicketError::InvalidPrice),
        s.mint(caller, event_id, price) == s,
        s.mint(caller, event_id, price).ticket_count() == s.ticket_count(),
{
}

/// Listing a ticket that is on sale already is refused, and the ledger
/// stays as it was. The holder is told that the ticket is already listed;
/// anyone else is told, as for any ticket, that the ticket is not theirs to
/// list.
pub proof fn lemma_relisting_is_refused(
    s: LedgerState,
    caller: Seq<char>,
    ticket_id: nat,
    new_price: int,
)
    requires
        ticket_id < s.ticket_count(),
        s.tickets[ticket_id as int].for_sale,
    ensures
        s.listing_outcome(caller, ticket_id) == Err::<(), TicketError>(
            if caller == s.tickets[ticket_id as int].owner {
                TicketError::AlreadyListed
            } else {
                TicketError::Unauthorized
            },
        ),
        s.list(caller, ticket_id, new_price) == s,
{
}

/// A ticket that is not on sale cannot be bought: whoever asks, and paid or
/// not, the purchase is refused as not for sale, and the ledger stays as it
/// was.
pub proof fn lemma_unlisted_ticket_is_not_sold(
    s: LedgerState,
    caller: Seq<char>,
    ticket_id: nat,
    buyer: Seq<char>,
    paid: bool,
)
    requires
        ticket_id < s.ticket_count(),
        !s.tickets[ticket_id as int].for_sale,
    ensures
        s.purchase_check(caller, ticket_id, buyer) == Err::<(), TicketError>(
            TicketError::NotForSale,
        ),
        s.purchase_outcome(caller, ticket_id, buyer, paid) == Err::<(), TicketError>(
            TicketError::NotForSale,
        ),
        s.purchase(caller, ticket_id, buyer, paid) == s,
{
}

/// Buying a resale listing at price `P` takes two payments from the buyer:
/// the commission, thirty percent of `P` rounded down, to the organizer, then
/// the rest to the holder. The two amounts add up to `P`.
pub proof fn lemma_resale_splits_price(s: LedgerState, ticket_id: nat, buyer: Seq<char>)
    requires
        s.registry is Some,
        ticket_id < s.ticket_count(),
        s.tickets[ticket_id as int].is_resale,
    ensures
        ({
            let ticket = s.tickets[ticket_id as int];
            let plan = s.payments_due(ticket_id, buyer);
            &&& plan.len() == 2
            &&& plan[0] == TransferState {
                from: buyer,
                to: s.registry->Some_0.owner,
                amount: ticket.price * 30 / 100,
            }
            &&& plan[1] == TransferState {
                from: buyer,
                to: ticket.owner,
                amount: ticket.price - ticket.price * 30 / 100,
            }
            &&& plan[0].amount == organizer_fee(ticket.price)
            &&& plan[1].amount == seller_amount(ticket.price)
            &&& plan[0].amount + plan[1].amount == ticket.price
        }),
{
}

/// Buying a listing that is not a resale at price `P` takes one payment: `P`
/// from the buyer to the organizer, and nothing to anyone else.
pub proof fn lemma_primary_sale_pays_organizer(s: LedgerState, ticket_id: nat, buyer: Seq<char>)
    requires
        s.registry is Some,
        ticket_id < s.ticket_count(),
        !s.tickets[ticket_id as int].is_resale,
    ensures
        s.payments_due(ticket_id, buyer) == seq![
            TransferState {
                from: buyer,
                to: s.registry->Some_0.owner,
                amount: s.tickets[ticket_id as int].price,
            },
        ],
{
}

/// After a purchase that went through, the buyer holds the ticket and the
/// ticket is neither on sale nor a resale. Its id, event and price, and
/// every other ticket, are as before.
pub proof fn lemma_purchase_hands_ticket_over(
    s: LedgerState,
    caller: Seq<char>,
    ticket_id: nat,
    buyer: Seq<char>,
    paid: bool,
)
    requires
        s.purchase_outcome(caller, ticket_id, buyer, paid) is Ok,
    ensures
        ({
            let before = s.tickets[ticket_id as int];
            let t = s.purchase(caller, ticket_id, buyer, paid);
            let after = t.tickets[ticket_id as int];
            &&& paid
            &&& caller == buyer
            &&& ticket_id < s.ticket_count()
            &&& t.ticket_count() == s.ticket_count()
            &&& t.registry == s.registry
            &&& after.owner == buyer
            &&& !after.for_sale
            &&& !after.is_resale
            &&& after.id == before.id
            &&& after.event_id == before.event_id
            &&& after.price == before.price
            &&& forall|i: int|
                0 <= i < s.ticket_count() && i != ticket_id ==> #[trigger] t.tickets[i]
                    == s.tickets[i]
        }),
{
}

/// A purchase whose payment failed is refused, and the ledger stays as it
/// was: holder, listing, resale mark and price of the ticket are unchanged.
pub proof fn lemma_failed_payment_changes_nothing(
    s: LedgerState,
    caller: Seq<char>,
    ticket_id: nat,
    buyer: Seq<char>,
)
    ensures
        s.purchase_outcome(caller, ticket_id, buyer, false) is Err,
        s.purchase_check(caller, ticket_id, buyer) is Ok ==> s.purchase_outcome(
            caller,
            ticket_id,
            buyer,
            false,
        ) == Err::<(), TicketError>(TicketError::PaymentFailed),
        s.purchase(caller, ticket_id, buyer, false) == s,
{
}

/// In a well-formed ledger a ticket exists only once the ledger is set up,
/// so a purchase is never refused for want of a registry.
pub proof fn lemma_purchase_finds_registry(
    s: LedgerState,
    caller: Seq<char>,
    ticket_id: nat,
    buyer: Seq<char>,
)
    requires
        s.well_formed(),
    ensures
        s.purchase_check(caller, ticket_id, buyer) != Err::<(), TicketError>(
            TicketError::NotInitialized,
        ),
{
}

} // verus!
