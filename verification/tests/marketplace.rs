//! The marketplace end to end: a ledger, and a payment service that keeps
//! balances and carries out what the ledger says is due.

use secure_ticket::{Identity, SecureTicketContract, TicketError, Transfer};

/// A payment service that holds a balance for each principal.
struct Bank {
    balances: Vec<(Identity, i128)>,
}

impl Bank {
    fn new() -> Bank {
        Bank { balances: Vec::new() }
    }

    fn balance(&self, who: &Identity) -> i128 {
        for (holder, amount) in &self.balances {
            if holder == who {
                return *amount;
            }
        }
        0
    }

    fn set(&mut self, who: &Identity, amount: i128) {
        for entry in self.balances.iter_mut() {
            if &entry.0 == who {
                entry.1 = amount;
                return;
            }
        }
        self.balances.push((who.clone(), amount));
    }

    fn mint(&mut self, to: &Identity, amount: i128) {
        let balance = self.balance(to);
        self.set(to, balance + amount);
    }

    /// Moves `amount`, unless it is negative or more than `from` has.
    fn transfer(&mut self, from: &Identity, to: &Identity, amount: i128) -> bool {
        if amount < 0 || self.balance(from) < amount {
            return false;
        }
        let left = self.balance(from) - amount;
        self.set(from, left);
        let raised = self.balance(to) + amount;
        self.set(to, raised);
        true
    }

    /// Carries out every payment of `plan`, or none of them.
    fn settle(&mut self, plan: &[Transfer]) -> bool {
        let before = self.balances.clone();
        for payment in plan {
            if !self.transfer(&payment.from, &payment.to, payment.amount) {
                self.balances = before;
                return false;
            }
        }
        true
    }
}

/// A purchase as a caller runs it: ask what is due, pay, report.
fn purchase(
    ledger: &mut SecureTicketContract,
    bank: &mut Bank,
    ticket_id: u32,
    buyer: &Identity,
) -> Result<(), TicketError> {
    let plan = ledger.payments_due(buyer, ticket_id, buyer)?;
    let paid = bank.settle(&plan);
    ledger.buy_ticket(buyer, ticket_id, buyer.clone(), paid)
}

/// A ledger set up by `organizer`, paid in `token`.
fn ledger_of(organizer: &Identity, token: &Identity) -> SecureTicketContract {
    let mut ledger = SecureTicketContract::new();
    ledger.initialize(organizer, organizer.clone(), token.clone()).unwrap();
    ledger
}

/// A bank in which `admin` was issued `amount` and passed it on to
/// `organizer`.
fn funded_bank(admin: &Identity, organizer: &Identity, amount: i128) -> Bank {
    let mut bank = Bank::new();
    bank.mint(admin, amount);
    assert!(bank.transfer(admin, organizer, amount));
    bank
}

#[test]
fn test_initialize_and_create_ticket() {
    let admin = Identity::new("admin");
    let organizer = Identity::new("organizer");
    let token = Identity::new("token");

    let amount = 1_000_000_000;
    let bank = funded_bank(&admin, &organizer, amount);
    assert_eq!(bank.balance(&organizer), amount);

    let mut ledger = ledger_of(&organizer, &token);

    let event_id = 1001;
    let price = 1_000_000;
    ledger.create_ticket(&organizer, event_id, price).unwrap();

    let ticket = ledger.get_ticket(0).unwrap();
    assert_eq!(ticket.id, 0);
    assert_eq!(ticket.event_id, event_id);
    assert_eq!(ticket.price, price);
    assert_eq!(ticket.owner, organizer);
    assert!(!ticket.for_sale);
    assert!(!ticket.is_resale);
}

#[test]
fn test_get_event_tickets() {
    let admin = Identity::new("admin");
    let organizer = Identity::new("organizer");
    let token = Identity::new("token");

    let amount = 1_000_000_000;
    let _bank = funded_bank(&admin, &organizer, amount);

    let mut ledger = ledger_of(&organizer, &token);

    ledger.create_ticket(&organizer, 42, 1_000_000).unwrap();
    ledger.create_ticket(&organizer, 42, 1_200_000).unwrap();
    ledger.create_ticket(&organizer, 100, 1_500_000).unwrap();

    let event_tickets = ledger.get_event_tickets(42);
    assert_eq!(event_tickets.len(), 2);
    assert_eq!(event_tickets.get(0).unwrap().event_id, 42);
    assert_eq!(event_tickets.get(1).unwrap().event_id, 42);
}

#[test]
fn test_get_resale_tickets() {
    let admin = Identity::new("admin");
    let organizer = Identity::new("organizer");
    let token = Identity::new("token");

    let amount = 1_000_000_000;
    let _bank = funded_bank(&admin, &organizer, amount);

    let mut ledger = ledger_of(&organizer, &token);

    ledger.create_ticket(&organizer, 1, 1_000_000).unwrap();
    ledger.create_ticket(&organizer, 1, 1_500_000).unwrap();
    ledger.resell_ticket(&organizer, 0, 2_000_000).unwrap();

    let resale = ledger.get_resale_tickets();
    assert_eq!(resale.len(), 1);
    assert_eq!(resale.get(0).unwrap().id, 0);
    assert_eq!(resale.get(0).unwrap().price, 2_000_000);
}

#[test]
fn test_create_ticket_with_zero_price() {
    let admin = Identity::new("admin");
    let organizer = Identity::new("organizer");
    let token = Identity::new("token");

    let amount = 1_000_000_000;
    let _bank = funded_bank(&admin, &organizer, amount);

    let mut ledger = ledger_of(&organizer, &token);

    ledger.create_ticket(&organizer, 123, 0).unwrap();
    let ticket = ledger.get_ticket(0).unwrap();
    assert_eq!(ticket.price, 0);
    assert_eq!(ticket.event_id, 123);
}

#[test]
#[should_panic(expected = "already_init")]
fn test_initialize_twice_panics() {
    let admin = Identity::new("admin");
    let organizer = Identity::new("organizer");
    let token = Identity::new("token");

    let amount = 1_000_000_000;
    let _bank = funded_bank(&admin, &organizer, amount);

    let mut ledger = ledger_of(&organizer, &token);
    if let Err(e) = ledger.initialize(&organizer, organizer.clone(), token.clone()) {
        panic!("{}", e.message());
    }
}

#[test]
#[should_panic(expected = "already_sale")]
fn test_resell_ticket_twice_panics() {
    let admin = Identity::new("admin");
    let organizer = Identity::new("organizer");
    let token = Identity::new("token");

    let amount = 1_000_000_000;
    let _bank = funded_bank(&admin, &organizer, amount);

    let mut ledger = ledger_of(&organizer, &token);

    ledger.create_ticket(&organizer, 1, 1_000_000).unwrap();
    ledger.resell_ticket(&organizer, 0, 2_000_000).unwrap();
    if let Err(e) = ledger.resell_ticket(&organizer, 0, 2_000_000) {
        panic!("{}", e.message());
    }
}

#[test]
#[should_panic(expected = "Ticket not found")]
fn test_get_nonexistent_ticket_panics() {
    let admin = Identity::new("admin");
    let organizer = Identity::new("organizer");
    let token = Identity::new("token");

    let amount = 1_000_000_000;
    let _bank = funded_bank(&admin, &organizer, amount);

    let ledger = ledger_of(&organizer, &token);

    if let Err(e) = ledger.get_ticket(999) {
        panic!("{}", e.message());
    }
}

#[test]
#[should_panic(expected = "invalid_price")]
fn test_create_ticket_with_negative_price_panics() {
    let admin = Identity::new("admin");
    let organizer = Identity::new("organizer");
    let token = Identity::new("token");

    let amount = 1_000_000_000;
    let _bank = funded_bank(&admin, &organizer, amount);

    let mut ledger = ledger_of(&organizer, &token);

    if let Err(e) = ledger.create_ticket(&organizer, 999, -1) {
        panic!("{}", e.message());
    }
}

#[test]
fn test_buy_ticket_not_for_sale_panics() {
    let admin = Identity::new("admin");
    let organizer = Identity::new("organizer");
    let buyer = Identity::new("buyer");
    let token = Identity::new("token");

    let amount = 1_000_000_000;
    let mut bank = Bank::new();
    bank.mint(&admin, 2 * amount);
    assert!(bank.transfer(&admin, &organizer, amount));
    assert!(bank.transfer(&admin, &buyer, amount));

    let mut ledger = ledger_of(&organizer, &token);

    ledger.create_ticket(&organizer, 1, 1_000_000).unwrap();

    let result = purchase(&mut ledger, &mut bank, 0, &buyer);

    assert!(
        result.is_err(),
        "Expected a panic when buying a ticket not for sale, but none occurred"
    );
    assert_eq!(result, Err(TicketError::NotForSale));
    assert_eq!(bank.balance(&buyer), amount);
    assert_eq!(ledger.get_owner(0).unwrap(), organizer);
}

#[test]
fn test_buy_ticket_transfers_token() {
    let organizer = Identity::new("organizer");
    let seller = Identity::new("seller");
    let buyer = Identity::new("buyer");
    let token = Identity::new("token");

    let initial_amount = 1_000_000_000;

    let mut bank = Bank::new();
    bank.mint(&seller, initial_amount);
    bank.mint(&buyer, initial_amount);

    let mut ledger = ledger_of(&organizer, &token);

    ledger.create_ticket(&organizer, 100, 1_000_000).unwrap();

    ledger.resell_ticket(&organizer, 0, 1_000_000).unwrap();

    purchase(&mut ledger, &mut bank, 0, &seller).unwrap();

    ledger.resell_ticket(&seller, 0, 1_000_000).unwrap();

    let organizer_balance_before = bank.balance(&organizer);
    let seller_balance_before = bank.balance(&seller);
    let buyer_balance_before = bank.balance(&buyer);

    purchase(&mut ledger, &mut bank, 0, &buyer).unwrap();

    let updated_ticket = ledger.get_ticket(0).unwrap();
    assert_eq!(updated_ticket.owner, buyer);
    assert!(!updated_ticket.for_sale);
    assert!(!updated_ticket.is_resale);

    let organizer_fee = 1_000_000 * 30 / 100;
    let seller_amount = 1_000_000 - organizer_fee;

    let organizer_balance_after = bank.balance(&organizer);
    let seller_balance_after = bank.balance(&seller);
    let buyer_balance_after = bank.balance(&buyer);

    assert_eq!(organizer_balance_after, organizer_balance_before + organizer_fee);
    assert_eq!(seller_balance_after, seller_balance_before + seller_amount);
    assert_eq!(buyer_balance_after, buyer_balance_before - 1_000_000);
}

#[test]
fn test_primary_sale_transfers_token() {
    let organizer = Identity::new("organizer");
    let buyer = Identity::new("buyer");
    let token = Identity::new("token");

    let initial_amount = 1_000_000_000;
    let mut bank = Bank::new();
    bank.mint(&buyer, initial_amount);

    let mut ledger = ledger_of(&organizer, &token);

    ledger.create_ticket(&organizer, 200, 2_000_000).unwrap();
    ledger.resell_ticket(&organizer, 0, 2_000_000).unwrap();

    let organizer_balance_before = bank.balance(&organizer);
    let buyer_balance_before = bank.balance(&buyer);

    purchase(&mut ledger, &mut bank, 0, &buyer).unwrap();

    let ticket = ledger.get_ticket(0).unwrap();
    assert_eq!(ticket.owner, buyer);
    assert!(!ticket.for_sale);
    assert!(!ticket.is_resale);

    let organizer_balance_after = bank.balance(&organizer);
    let buyer_balance_after = bank.balance(&buyer);

    assert_eq!(organizer_balance_after, organizer_balance_before + 2_000_000);
    assert_eq!(buyer_balance_after, buyer_balance_before - 2_000_000);
}

#[test]
#[should_panic]
fn test_buy_ticket_with_insufficient_funds_panics() {
    let organizer = Identity::new("organizer");
    let seller = Identity::new("seller");
    let poor_buyer = Identity::new("poor_buyer");
    let token = Identity::new("token");

    let initial_amount = 1_000_000_000;
    let mut bank = Bank::new();
    bank.mint(&seller, initial_amount);

    let mut ledger = ledger_of(&organizer, &token);

    ledger.create_ticket(&organizer, 77, 2_000_000).unwrap();
    ledger.resell_ticket(&organizer, 0, 2_000_000).unwrap();

    purchase(&mut ledger, &mut bank, 0, &poor_buyer).unwrap();
}

#[test]
fn insufficient_funds_leave_ticket_and_balances_unchanged() {
    let organizer = Identity::new("organizer");
    let poor_buyer = Identity::new("poor_buyer");
    let token = Identity::new("token");

    let mut bank = Bank::new();
    bank.mint(&poor_buyer, 1_999_999);

    let mut ledger = ledger_of(&organizer, &token);
    ledger.create_ticket(&organizer, 77, 2_000_000).unwrap();
    ledger.resell_ticket(&organizer, 0, 2_000_000).unwrap();

    let result = purchase(&mut ledger, &mut bank, 0, &poor_buyer);
    assert_eq!(result, Err(TicketError::PaymentFailed));

    let ticket = ledger.get_ticket(0).unwrap();
    assert_eq!(ticket.owner, organizer);
    assert!(ticket.for_sale);
    assert!(ticket.is_resale);
    assert_eq!(ticket.price, 2_000_000);
    assert_eq!(bank.balance(&poor_buyer), 1_999_999);
    assert_eq!(bank.balance(&organizer), 0);

    bank.mint(&poor_buyer, 1);
    assert_eq!(purchase(&mut ledger, &mut bank, 0, &poor_buyer), Ok(()));
    assert_eq!(ledger.get_owner(0), Ok(poor_buyer.clone()));
    assert_eq!(bank.balance(&poor_buyer), 0);
    assert_eq!(bank.balance(&organizer), 2_000_000);
}

#[test]
fn payment_that_fails_halfway_is_undone() {
    let organizer = Identity::new("organizer");
    let seller = Identity::new("seller");
    let buyer = Identity::new("buyer");
    let token = Identity::new("token");

    let mut bank = Bank::new();
    bank.mint(&seller, 1_000);
    bank.mint(&buyer, 500);

    let mut ledger = ledger_of(&organizer, &token);
    ledger.create_ticket(&organizer, 1, 1_000).unwrap();
    ledger.resell_ticket(&organizer, 0, 1_000).unwrap();
    purchase(&mut ledger, &mut bank, 0, &seller).unwrap();
    assert_eq!(bank.balance(&organizer), 1_000);
    ledger.resell_ticket(&seller, 0, 1_000).unwrap();

    // The buyer can pay the commission of 300, but not the 700 after it.
    let result = purchase(&mut ledger, &mut bank, 0, &buyer);
    assert_eq!(result, Err(TicketError::PaymentFailed));
    assert_eq!(bank.balance(&buyer), 500);
    assert_eq!(bank.balance(&organizer), 1_000);
    assert_eq!(bank.balance(&seller), 0);
    assert_eq!(ledger.get_owner(0), Ok(seller.clone()));
    assert_eq!(ledger.get_resale_tickets().len(), 1);
}

#[test]
fn free_listing_is_bought_without_funds() {
    let organizer = Identity::new("organizer");
    let buyer = Identity::new("buyer");
    let token = Identity::new("token");

    let mut bank = Bank::new();
    let mut ledger = ledger_of(&organizer, &token);
    ledger.create_ticket(&organizer, 1, 1_000).unwrap();
    ledger.resell_ticket(&organizer, 0, 0).unwrap();

    assert_eq!(purchase(&mut ledger, &mut bank, 0, &buyer), Ok(()));
    assert_eq!(ledger.get_owner(0), Ok(buyer.clone()));
    assert_eq!(bank.balance(&buyer), 0);
    assert_eq!(bank.balance(&organizer), 0);
}

#[test]
fn negative_listing_cannot_be_paid() {
    let organizer = Identity::new("organizer");
    let buyer = Identity::new("buyer");
    let token = Identity::new("token");

    let mut bank = Bank::new();
    bank.mint(&buyer, 1_000);
    let mut ledger = ledger_of(&organizer, &token);
    ledger.create_ticket(&organizer, 1, 1_000).unwrap();
    ledger.resell_ticket(&organizer, 0, -10).unwrap();

    assert_eq!(purchase(&mut ledger, &mut bank, 0, &buyer), Err(TicketError::PaymentFailed));
    assert_eq!(ledger.get_owner(0), Ok(organizer.clone()));
    assert_eq!(bank.balance(&buyer), 1_000);
}
