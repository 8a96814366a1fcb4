use event_ledger::address::Address;
use event_ledger::addressing::derive_mint_authority;
use event_ledger::errors::EventError;
use event_ledger::ledger::Ledger;

fn addr(b: u8) -> Address {
    Address::new([b; 32])
}

fn mint_auth_for(program: &Address, mint: &Address) -> Address {
    derive_mint_authority(program, mint).expect("derivation should find a bump").0
}

#[test]
fn create_event_populates_record_from_inputs() {
    let program = addr(250);
    let mut l = Ledger::new(program, 0);
    let organizer = addr(1);
    let n = l
        .init_event(organizer, 42, 5_000, String::from("Rust Conf"), String::from("A meetup"))
        .expect("creation should succeed");
    assert_eq!(n.organizer, organizer);
    assert_eq!(n.event_id, 42);
    let e = l.get_event(&n.event).expect("the event account should exist");
    assert_eq!(e.price, 5_000);
    assert_eq!(e.title, "Rust Conf");
    assert_eq!(e.description, "A meetup");
    assert_eq!(e.organizer, organizer);
    assert_eq!(e.event_id, 42);
}

#[test]
fn create_event_twice_fails_with_collision() {
    let program = addr(250);
    let mut l = Ledger::new(program, 0);
    let organizer = addr(1);
    let first = l.init_event(organizer, 7, 10, String::from("a"), String::from("b"));
    assert!(first.is_ok());
    let second = l.init_event(organizer, 7, 99, String::from("x"), String::from("y"));
    assert_eq!(second.unwrap_err(), EventError::AccountInUse);
    // A different id, or a different organizer, is no collision.
    assert!(l.init_event(organizer, 8, 10, String::from("a"), String::from("b")).is_ok());
    assert!(l.init_event(addr(2), 7, 10, String::from("a"), String::from("b")).is_ok());
}

#[test]
fn create_event_funds_reserve_from_caller() {
    let program = addr(250);
    let mut l = Ledger::new(program, 100);
    let organizer = addr(1);
    l.fund(organizer, 150);
    let n = l
        .init_event(organizer, 1, 0, String::from("t"), String::from("d"))
        .expect("creation should succeed");
    assert_eq!(l.balance_of(&organizer), 50);
    assert_eq!(l.balance_of(&n.event), 100);
}

#[test]
fn create_event_without_reserve_funding_fails() {
    let program = addr(250);
    let mut l = Ledger::new(program, 100);
    let organizer = addr(1);
    l.fund(organizer, 99);
    let r = l.init_event(organizer, 1, 0, String::from("t"), String::from("d"));
    assert_eq!(r.unwrap_err(), EventError::InsufficientFunds);
    assert_eq!(l.balance_of(&organizer), 99);
}

#[test]
fn grant_ticket_initializes_unchecked_and_unminted() {
    let program = addr(250);
    let mut l = Ledger::new(program, 0);
    let organizer = addr(1);
    let owner = addr(2);
    let ev = l.init_event(organizer, 1, 500, String::from("t"), String::from("d")).unwrap();
    let n = l.init_ticket(&ev.event, owner).expect("grant should succeed");
    assert_eq!(n.event, ev.event);
    assert_eq!(n.owner, owner);
    let t = l.get_ticket(&n.ticket).expect("the ticket account should exist");
    assert!(!t.checked_in);
    assert_eq!(t.event, ev.event);
    assert_eq!(t.owner, owner);
    assert_eq!(t.mint, Address::zero());
    // The grant path charges no price: the owner never held a balance.
    assert_eq!(l.balance_of(&owner), 0);
    assert_eq!(l.balance_of(&ev.event), 0);
}

#[test]
fn grant_ticket_twice_fails_with_collision() {
    let program = addr(250);
    let mut l = Ledger::new(program, 0);
    let ev = l.init_event(addr(1), 1, 0, String::from("t"), String::from("d")).unwrap();
    assert!(l.init_ticket(&ev.event, addr(2)).is_ok());
    assert_eq!(l.init_ticket(&ev.event, addr(2)).unwrap_err(), EventError::AccountInUse);
    // Another owner still gets a ticket.
    assert!(l.init_ticket(&ev.event, addr(3)).is_ok());
}

#[test]
fn grant_ticket_for_missing_event_fails() {
    let program = addr(250);
    let mut l = Ledger::new(program, 0);
    assert_eq!(l.init_ticket(&addr(9), addr(2)).unwrap_err(), EventError::AccountNotFound);
}

#[test]
fn join_priced_event_moves_exactly_the_price() {
    let program = addr(250);
    let mut l = Ledger::new(program, 0);
    let organizer = addr(1);
    let payer = addr(2);
    let mint = addr(3);
    let holding = addr(4);
    let ev = l.init_event(organizer, 1, 7_000, String::from("t"), String::from("d")).unwrap();
    l.fund(payer, 10_000);
    let auth = mint_auth_for(&program, &mint);
    let n = l.join_event(payer, &ev.event, mint, &auth, &holding).expect("join should succeed");
    assert_eq!(n.event, ev.event);
    assert_eq!(n.attendee, payer);
    assert_eq!(l.balance_of(&payer), 3_000);
    assert_eq!(l.balance_of(&ev.event), 7_000);
    assert_eq!(l.token_balance_of(&holding), 1);
    let t = l
        .get_ticket(&event_ledger::addressing::derive_ticket_address(&program, &ev.event, &payer)
            .unwrap()
            .0)
        .expect("the ticket account should exist");
    assert_eq!(t.owner, payer);
    assert_eq!(t.event, ev.event);
    assert_eq!(t.mint, mint);
    assert!(!t.checked_in);
}

#[test]
fn join_free_event_mints_without_transfer() {
    let program = addr(250);
    let mut l = Ledger::new(program, 0);
    let payer = addr(2);
    let mint = addr(3);
    let holding = addr(4);
    let ev = l.init_event(addr(1), 1, 0, String::from("t"), String::from("d")).unwrap();
    let auth = mint_auth_for(&program, &mint);
    // The payer holds no balance at all; a free event still admits it.
    let n = l.join_event(payer, &ev.event, mint, &auth, &holding);
    assert!(n.is_ok());
    assert_eq!(l.balance_of(&payer), 0);
    assert_eq!(l.balance_of(&ev.event), 0);
    assert_eq!(l.token_balance_of(&holding), 1);
}

#[test]
fn join_with_insufficient_balance_fails_untouched() {
    let program = addr(250);
    let mut l = Ledger::new(program, 0);
    let payer = addr(2);
    let mint = addr(3);
    let ev = l.init_event(addr(1), 1, 7_000, String::from("t"), String::from("d")).unwrap();
    l.fund(payer, 6_999);
    let auth = mint_auth_for(&program, &mint);
    let r = l.join_event(payer, &ev.event, mint, &auth, &addr(4));
    assert_eq!(r.unwrap_err(), EventError::InsufficientFunds);
    assert_eq!(l.balance_of(&payer), 6_999);
    assert_eq!(l.balance_of(&ev.event), 0);
    assert_eq!(l.token_balance_of(&addr(4)), 0);
}

#[test]
fn join_with_wrong_mint_authority_fails() {
    let program = addr(250);
    let mut l = Ledger::new(program, 0);
    let ev = l.init_event(addr(1), 1, 0, String::from("t"), String::from("d")).unwrap();
    let r = l.join_event(addr(2), &ev.event, addr(3), &addr(5), &addr(4));
    assert_eq!(r.unwrap_err(), EventError::WrongMintAuthority);
}

#[test]
fn join_twice_fails_with_collision() {
    let program = addr(250);
    let mut l = Ledger::new(program, 0);
    let payer = addr(2);
    let mint = addr(3);
    let ev = l.init_event(addr(1), 1, 0, String::from("t"), String::from("d")).unwrap();
    let auth = mint_auth_for(&program, &mint);
    assert!(l.join_event(payer, &ev.event, mint, &auth, &addr(4)).is_ok());
    let again = l.join_event(payer, &ev.event, mint, &auth, &addr(4));
    assert_eq!(again.unwrap_err(), EventError::AccountInUse);
    assert_eq!(l.token_balance_of(&addr(4)), 1);
}

#[test]
fn check_in_flips_the_flag_exactly_once() {
    let program = addr(250);
    let mut l = Ledger::new(program, 0);
    let organizer = addr(1);
    let owner = addr(2);
    let ev = l.init_event(organizer, 1, 0, String::from("t"), String::from("d")).unwrap();
    let tk = l.init_ticket(&ev.event, owner).unwrap();
    assert!(!l.get_ticket(&tk.ticket).unwrap().checked_in);
    let n = l.check_in(organizer, &ev.event, &tk.ticket, 1_700_000_000).unwrap();
    assert_eq!(n.ticket, tk.ticket);
    assert_eq!(n.at, 1_700_000_000);
    assert!(l.get_ticket(&tk.ticket).unwrap().checked_in);
    let again = l.check_in(organizer, &ev.event, &tk.ticket, 1_700_000_999);
    assert_eq!(again.unwrap_err(), EventError::AlreadyCheckedIn);
    assert!(l.get_ticket(&tk.ticket).unwrap().checked_in);
}

#[test]
fn check_in_by_non_organizer_is_unauthorized() {
    let program = addr(250);
    let mut l = Ledger::new(program, 0);
    let organizer = addr(1);
    let owner = addr(2);
    let ev = l.init_event(organizer, 1, 0, String::from("t"), String::from("d")).unwrap();
    let tk = l.init_ticket(&ev.event, owner).unwrap();
    // Not even the ticket's owner may check in.
    let r = l.check_in(owner, &ev.event, &tk.ticket, 5);
    assert_eq!(r.unwrap_err(), EventError::Unauthorized);
    assert!(!l.get_ticket(&tk.ticket).unwrap().checked_in);
}

#[test]
fn check_in_against_the_wrong_event_fails() {
    let program = addr(250);
    let mut l = Ledger::new(program, 0);
    let organizer = addr(1);
    let ev1 = l.init_event(organizer, 1, 0, String::from("t"), String::from("d")).unwrap();
    let ev2 = l.init_event(organizer, 2, 0, String::from("t"), String::from("d")).unwrap();
    let tk = l.init_ticket(&ev1.event, addr(2)).unwrap();
    let r = l.check_in(organizer, &ev2.event, &tk.ticket, 5);
    assert_eq!(r.unwrap_err(), EventError::WrongEvent);
    assert!(!l.get_ticket(&tk.ticket).unwrap().checked_in);
}

#[test]
fn check_in_with_missing_accounts_fails() {
    let program = addr(250);
    let mut l = Ledger::new(program, 0);
    let organizer = addr(1);
    let ev = l.init_event(organizer, 1, 0, String::from("t"), String::from("d")).unwrap();
    assert_eq!(
        l.check_in(organizer, &ev.event, &addr(9), 5).unwrap_err(),
        EventError::AccountNotFound
    );
    assert_eq!(
        l.check_in(organizer, &addr(9), &addr(9), 5).unwrap_err(),
        EventError::AccountNotFound
    );
}

#[test]
fn withdraw_zero_request_pays_all_available() {
    let program = addr(250);
    let mut l = Ledger::new(program, 100);
    let organizer = addr(1);
    l.fund(organizer, 100);
    let ev = l.init_event(organizer, 1, 0, String::from("t"), String::from("d")).unwrap();
    l.fund(ev.event, 2_500);
    let n = l.withdraw(organizer, &ev.event, 0).expect("withdrawal should succeed");
    assert_eq!(n.amount, 2_500);
    assert_eq!(n.to, organizer);
    assert_eq!(l.balance_of(&organizer), 2_500);
    assert_eq!(l.balance_of(&ev.event), 100);
    let again = l.withdraw(organizer, &ev.event, 0);
    assert_eq!(again.unwrap_err(), EventError::NoFunds);
}

#[test]
fn withdraw_clamps_overlarge_requests_to_available() {
    let program = addr(250);
    let mut l = Ledger::new(program, 100);
    let organizer = addr(1);
    l.fund(organizer, 100);
    let ev = l.init_event(organizer, 1, 0, String::from("t"), String::from("d")).unwrap();
    l.fund(ev.event, 600);
    let n = l.withdraw(organizer, &ev.event, 10_000).unwrap();
    assert_eq!(n.amount, 600);
    // The account never drops below its reserve.
    assert_eq!(l.balance_of(&ev.event), 100);
    assert_eq!(l.balance_of(&organizer), 600);
}

#[test]
fn withdraw_partial_request_pays_exactly_it() {
    let program = addr(250);
    let mut l = Ledger::new(program, 0);
    let organizer = addr(1);
    let ev = l.init_event(organizer, 1, 0, String::from("t"), String::from("d")).unwrap();
    l.fund(ev.event, 600);
    let n = l.withdraw(organizer, &ev.event, 200).unwrap();
    assert_eq!(n.amount, 200);
    assert_eq!(l.balance_of(&ev.event), 400);
    assert_eq!(l.balance_of(&organizer), 200);
}

#[test]
fn withdraw_by_non_organizer_is_unauthorized() {
    let program = addr(250);
    let mut l = Ledger::new(program, 0);
    let organizer = addr(1);
    let stranger = addr(2);
    let ev = l.init_event(organizer, 1, 0, String::from("t"), String::from("d")).unwrap();
    l.fund(ev.event, 600);
    let r = l.withdraw(stranger, &ev.event, 0);
    assert_eq!(r.unwrap_err(), EventError::Unauthorized);
    assert_eq!(l.balance_of(&ev.event), 600);
    assert_eq!(l.balance_of(&stranger), 0);
}

#[test]
fn withdraw_from_missing_event_fails() {
    let program = addr(250);
    let mut l = Ledger::new(program, 0);
    assert_eq!(l.withdraw(addr(1), &addr(9), 0).unwrap_err(), EventError::AccountNotFound);
}

#[test]
fn paid_join_then_full_withdrawal_round_trip() {
    // An event priced at 1_000_000 under a zero reserve: the attendee's
    // payment lands in escrow, the organizer drains it with a zero request,
    // the balance returns to the reserve floor, and a second zero request
    // finds no funds.
    let program = addr(250);
    let mut l = Ledger::new(program, 0);
    let organizer = addr(1);
    let attendee = addr(2);
    let mint = addr(3);
    let holding = addr(4);
    let ev = l
        .init_event(organizer, 1, 1_000_000, String::from("t"), String::from("d"))
        .unwrap();
    l.fund(attendee, 1_000_000);
    let auth = mint_auth_for(&program, &mint);
    l.join_event(attendee, &ev.event, mint, &auth, &holding).expect("join should succeed");
    assert_eq!(l.balance_of(&attendee), 0);
    assert_eq!(l.balance_of(&ev.event), 1_000_000);
    let n = l.withdraw(organizer, &ev.event, 0).expect("withdrawal should succeed");
    assert_eq!(n.amount, 1_000_000);
    assert_eq!(l.balance_of(&organizer), 1_000_000);
    assert_eq!(l.balance_of(&ev.event), 0);
    assert_eq!(l.withdraw(organizer, &ev.event, 0).unwrap_err(), EventError::NoFunds);
}
