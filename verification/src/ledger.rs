use vstd::prelude::*;

use crate::address::{zero_address, Address};
use crate::addressing::{
    derive_event_address, derive_mint_authority, derive_ticket_address, derived_address,
    event_seeds, mint_authority_seeds, ticket_seeds,
};
use crate::errors::EventError;
use crate::events::{CheckedIn, CreateEvent, CreateTicket, JoinedEvent, Withdrawn};
use crate::states::{Event, EventV, Ticket, TicketV, DESCRIPTION_LENGTH, TITLE_LENGTH};
use crate::table::{amount_or_zero, Table};

verus! {

/// The ledger state the marketplace operates on: the program id under which
/// sub-accounts derive, the minimum balance an account must retain to stay
/// allocated, and the accounts themselves. `balances` holds every account's
/// funded native-currency balance, the escrow of an event account included;
/// `tokens` holds the units minted into each token-holding account.
pub struct Ledger {
    pub program: Address,
    pub reserve: u64,
    pub events: Table<Event>,
    pub tickets: Table<Ticket>,
    pub balances: Table<u64>,
    pub tokens: Table<u64>,
}

/// The mathematical content of a [`Ledger`].
#[verifier::ext_equal]
pub struct LedgerView {
    pub program: Seq<u8>,
    pub reserve: u64,
    pub events: Map<Seq<u8>, EventV>,
    pub tickets: Map<Seq<u8>, TicketV>,
    pub balances: Map<Seq<u8>, u64>,
    pub tokens: Map<Seq<u8>, u64>,
}

impl View for Ledger {
    type V = LedgerView;

    open spec fn view(&self) -> LedgerView {
        LedgerView {
            program: self.program@,
            reserve: self.reserve,
            events: self.events@,
            tickets: self.tickets@,
            balances: self.balances@,
            tokens: self.tokens@,
        }
    }
}

/// Whether event creation by `caller` under `event_id` succeeds on `v`: the
/// seeds must yield an address, no account may exist there yet, and the
/// caller must be able to fund the new account's baseline reserve.
pub open spec fn init_event_ok(v: LedgerView, caller: Seq<u8>, event_id: u64) -> bool {
    match derived_address(event_seeds(caller, event_id), v.program) {
        Some(p) => {
            &&& !v.events.contains_key(p.0)
            &&& !v.balances.contains_key(p.0)
            &&& amount_or_zero(v.balances, caller) >= v.reserve
        },
        None => false,
    }
}

/// The error event creation fails with when it does, first failing guard
/// first.
pub open spec fn init_event_err(v: LedgerView, caller: Seq<u8>, event_id: u64) -> EventError {
    match derived_address(event_seeds(caller, event_id), v.program) {
        Some(p) => if v.events.contains_key(p.0) || v.balances.contains_key(p.0) {
            EventError::AccountInUse
        } else {
            EventError::InsufficientFunds
        },
        None => EventError::InvalidSeeds,
    }
}

/// The state successful event creation leaves: the record populated from the
/// creation inputs, and the new account funded with the baseline reserve out
/// of the caller's balance.
pub open spec fn init_event_next(
    v: LedgerView,
    caller: Seq<u8>,
    event_id: u64,
    price: u64,
    title: Seq<char>,
    description: Seq<char>,
) -> LedgerView {
    match derived_address(event_seeds(caller, event_id), v.program) {
        Some(p) => LedgerView {
            events: v.events.insert(
                p.0,
                EventV { price, title, description, organizer: caller, event_id, bump: p.1 },
            ),
            balances: if v.reserve > 0 {
                v.balances.insert(
                    caller,
                    (amount_or_zero(v.balances, caller) - v.reserve) as u64,
                ).insert(p.0, v.reserve)
            } else {
                v.balances.insert(p.0, 0u64)
            },
            ..v
        },
        None => v,
    }
}

/// Whether granting `owner` a ticket for the event at `event` succeeds on
/// `v`: the event must exist, the seeds must yield an address, and the owner
/// must not hold a ticket for this event yet.
pub open spec fn init_ticket_ok(v: LedgerView, event: Seq<u8>, owner: Seq<u8>) -> bool {
    &&& v.events.contains_key(event)
    &&& match derived_address(ticket_seeds(event, owner), v.program) {
        Some(p) => !v.tickets.contains_key(p.0),
        None => false,
    }
}

/// The error a ticket grant fails with when it does.
pub open spec fn init_ticket_err(v: LedgerView, event: Seq<u8>, owner: Seq<u8>) -> EventError {
    if !v.events.contains_key(event) {
        EventError::AccountNotFound
    } else {
        match derived_address(ticket_seeds(event, owner), v.program) {
            Some(_) => EventError::AccountInUse,
            None => EventError::InvalidSeeds,
        }
    }
}

/// The state a successful ticket grant leaves: a fresh ticket bound to the
/// event, owned by `owner`, not checked in, with no token mint bound.
pub open spec fn init_ticket_next(v: LedgerView, event: Seq<u8>, owner: Seq<u8>) -> LedgerView {
    match derived_address(ticket_seeds(event, owner), v.program) {
        Some(p) => LedgerView {
            tickets: v.tickets.insert(
                p.0,
                TicketV { event, owner, mint: zero_address(), checked_in: false, bump: p.1 },
            ),
            ..v
        },
        None => v,
    }
}

/// Whether `caller` can join the event at `event` with token mint `mint`:
/// the event must exist, the caller must not hold a ticket for it yet, the
/// supplied minting authority must be the one the mint derives, and when the
/// event charges a price the caller's balance must cover it.
pub open spec fn join_event_ok(
    v: LedgerView,
    caller: Seq<u8>,
    event: Seq<u8>,
    mint: Seq<u8>,
    mint_authority: Seq<u8>,
) -> bool {
    &&& v.events.contains_key(event)
    &&& (match derived_address(ticket_seeds(event, caller), v.program) {
        Some(p) => !v.tickets.contains_key(p.0),
        None => false,
    })
    &&& (match derived_address(mint_authority_seeds(mint), v.program) {
        Some(q) => q.0 == mint_authority,
        None => false,
    })
    &&& (v.events[event].price > 0 ==> amount_or_zero(v.balances, caller)
        >= v.events[event].price)
}

/// The error joining fails with when it does, first failing guard first.
pub open spec fn join_event_err(
    v: LedgerView,
    caller: Seq<u8>,
    event: Seq<u8>,
    mint: Seq<u8>,
    mint_authority: Seq<u8>,
) -> EventError {
    if !v.events.contains_key(event) {
        EventError::AccountNotFound
    } else {
        match derived_address(ticket_seeds(event, caller), v.program) {
            None => EventError::InvalidSeeds,
            Some(p) => if v.tickets.contains_key(p.0) {
                EventError::AccountInUse
            } else {
                match derived_address(mint_authority_seeds(mint), v.program) {
                    None => EventError::InvalidSeeds,
                    Some(q) => if q.0 != mint_authority {
                        EventError::WrongMintAuthority
                    } else {
                        EventError::InsufficientFunds
                    },
                }
            },
        }
    }
}

/// The state a successful join leaves: when the event charges a price,
/// exactly that price moved from the caller's balance into the event
/// account's; exactly one token unit minted into the holding account; and a
/// fresh ticket owned by the caller, bound to the event and to the mint, not
/// checked in.
pub open spec fn join_event_next(
    v: LedgerView,
    caller: Seq<u8>,
    event: Seq<u8>,
    mint: Seq<u8>,
    holding: Seq<u8>,
) -> LedgerView {
    match derived_address(ticket_seeds(event, caller), v.program) {
        Some(p) => {
            let price = v.events[event].price;
            let paid = if price > 0 {
                let debited = v.balances.insert(
                    caller,
                    (amount_or_zero(v.balances, caller) - price) as u64,
                );
                debited.insert(event, (amount_or_zero(debited, event) + price) as u64)
            } else {
                v.balances
            };
            LedgerView {
                balances: paid,
                tokens: v.tokens.insert(
                    holding,
                    (amount_or_zero(v.tokens, holding) + 1) as u64,
                ),
                tickets: v.tickets.insert(
                    p.0,
                    TicketV { event, owner: caller, mint, checked_in: false, bump: p.1 },
                ),
                ..v
            }
        },
        None => v,
    }
}

/// Whether `caller` can check the ticket at `ticket` in for the event at
/// `event`: both must exist, the caller must be the event's organizer, the
/// ticket must belong to the event, and it must not be checked in yet.
pub open spec fn check_in_ok(
    v: LedgerView,
    caller: Seq<u8>,
    event: Seq<u8>,
    ticket: Seq<u8>,
) -> bool {
    &&& v.events.contains_key(event)
    &&& v.tickets.contains_key(ticket)
    &&& caller == v.events[event].organizer
    &&& v.tickets[ticket].event == event
    &&& !v.tickets[ticket].checked_in
}

/// The error a check-in fails with when it does, first failing guard first.
pub open spec fn check_in_err(
    v: LedgerView,
    caller: Seq<u8>,
    event: Seq<u8>,
    ticket: Seq<u8>,
) -> EventError {
    if !v.events.contains_key(event) || !v.tickets.contains_key(ticket) {
        EventError::AccountNotFound
    } else if caller != v.events[event].organizer {
        EventError::Unauthorized
    } else if v.tickets[ticket].event != event {
        EventError::WrongEvent
    } else {
        EventError::AlreadyCheckedIn
    }
}

/// The state a successful check-in leaves: the one ticket's flag set, and
/// nothing else touched.
pub open spec fn check_in_next(v: LedgerView, ticket: Seq<u8>) -> LedgerView {
    LedgerView {
        tickets: v.tickets.insert(ticket, TicketV { checked_in: true, ..v.tickets[ticket] }),
        ..v
    }
}

/// What an event account can pay out: its funded balance net of the reserve
/// it must retain to stay allocated.
pub open spec fn available_of(v: LedgerView, event: Seq<u8>) -> u64 {
    let b = amount_or_zero(v.balances, event);
    if b >= v.reserve {
        (b - v.reserve) as u64
    } else {
        0
    }
}

/// Whether the organizer `caller` can withdraw from the event at `event`:
/// something above the reserve must be available.
pub open spec fn withdraw_ok(v: LedgerView, caller: Seq<u8>, event: Seq<u8>) -> bool {
    &&& v.events.contains_key(event)
    &&& caller == v.events[event].organizer
    &&& available_of(v, event) > 0
}

/// The error a withdrawal fails with when it does, first failing guard first.
pub open spec fn withdraw_err(v: LedgerView, caller: Seq<u8>, event: Seq<u8>) -> EventError {
    if !v.events.contains_key(event) {
        EventError::AccountNotFound
    } else if caller != v.events[event].organizer {
        EventError::Unauthorized
    } else {
        EventError::NoFunds
    }
}

/// What a withdrawal request for `amount` pays out: the full available
/// balance when the request is zero or exceeds it, the requested amount
/// otherwise.
pub open spec fn withdraw_amount(v: LedgerView, event: Seq<u8>, amount: u64) -> u64 {
    let available = available_of(v, event);
    if amount == 0 || amount > available {
        available
    } else {
        amount
    }
}

/// The state a successful withdrawal leaves: the paid amount moved from the
/// event account's balance to the caller's.
pub open spec fn withdraw_next(
    v: LedgerView,
    caller: Seq<u8>,
    event: Seq<u8>,
    amount: u64,
) -> LedgerView {
    let pay = withdraw_amount(v, event, amount);
    let debited = v.balances.insert(event, (amount_or_zero(v.balances, event) - pay) as u64);
    let credited = debited.insert(caller, (amount_or_zero(debited, caller) + pay) as u64);
    LedgerView { balances: credited, ..v }
}

impl Ledger {
    /// Every account table keyed consistently: at most one entry per address.
    pub open spec fn wf(self) -> bool {
        &&& self.events.wf()
        &&& self.tickets.wf()
        &&& self.balances.wf()
        &&& self.tokens.wf()
    }

    /// An empty ledger under `program`, whose accounts must retain `reserve`
    /// to stay allocated.
    pub fn new(program: Address, reserve: u64) -> (r: Ledger)
        ensures
            r.wf(),
            r@.program == program@,
            r@.reserve == reserve,
            r@.events == Map::<Seq<u8>, EventV>::empty(),
            r@.tickets == Map::<Seq<u8>, TicketV>::empty(),
            r@.balances == Map::<Seq<u8>, u64>::empty(),
            r@.tokens == Map::<Seq<u8>, u64>::empty(),
    {
        Ledger {
            program,
            reserve,
            events: Table::empty(),
            tickets: Table::empty(),
            balances: Table::empty(),
            tokens: Table::empty(),
        }
    }

    /// Funds an account with native currency from outside the ledger.
    pub fn fund(&mut self, owner: Address, amount: u64)
        requires
            old(self).wf(),
            amount_or_zero(old(self)@.balances, owner@) + amount <= u64::MAX,
        ensures
            final(self).wf(),
            final(self)@ == (LedgerView {
                balances: old(self)@.balances.insert(
                    owner@,
                    (amount_or_zero(old(self)@.balances, owner@) + amount) as u64,
                ),
                ..old(self)@
            }),
    {
        self.balances.add_to(&owner, amount);
        proof {
            assert(self@ =~= LedgerView {
                balances: old(self)@.balances.insert(
                    owner@,
                    (amount_or_zero(old(self)@.balances, owner@) + amount) as u64,
                ),
                ..old(self)@
            });
        }
    }

    /// The native-currency balance held at `a`, zero when no account is
    /// funded there.
    pub fn balance_of(&self, a: &Address) -> (r: u64)
        requires
            self.wf(),
        ensures
            r == amount_or_zero(self@.balances, a@),
    {
        match self.balances.index_of(a) {
            Some(i) => self.balances.entries[i].1,
            None => 0,
        }
    }

    /// The token units held at `a`, zero when no tokens were minted there.
    pub fn token_balance_of(&self, a: &Address) -> (r: u64)
        requires
            self.wf(),
        ensures
            r == amount_or_zero(self@.tokens, a@),
    {
        match self.tokens.index_of(a) {
            Some(i) => self.tokens.entries[i].1,
            None => 0,
        }
    }

    /// The event record at `a`, if one exists.
    pub fn get_event(&self, a: &Address) -> (r: Option<&Event>)
        requires
            self.wf(),
        ensures
            match r {
                Some(e) => self@.events.contains_key(a@) && e@ == self@.events[a@],
                None => !self@.events.contains_key(a@),
            },
    {
        match self.events.index_of(a) {
            Some(i) => Some(&self.events.entries[i].1),
            None => None,
        }
    }

    /// The ticket record at `a`, if one exists.
    pub fn get_ticket(&self, a: &Address) -> (r: Option<Ticket>)
        requires
            self.wf(),
        ensures
            match r {
                Some(t) => self@.tickets.contains_key(a@) && t@ == self@.tickets[a@],
                None => !self@.tickets.contains_key(a@),
            },
    {
        match self.tickets.index_of(a) {
            Some(i) => Some(self.tickets.entries[i].1),
            None => None,
        }
    }

    /// Creates the event account that `caller` and `event_id` determine,
    /// populates it from the inputs, and funds its baseline reserve from the
    /// caller. Fails with `AccountInUse` when the same organizer already
    /// created an event under the same id.
    pub fn init_event(
        &mut self,
        caller: Address,
        event_id: u64,
        price: u64,
        title: String,
        description: String,
    ) -> (r: Result<CreateEvent, EventError>)
        requires
            old(self).wf(),
            title@.len() <= TITLE_LENGTH,
            description@.len() <= DESCRIPTION_LENGTH,
        ensures
            final(self).wf(),
            init_event_ok(old(self)@, caller@, event_id) ==> {
                &&& final(self)@ == init_event_next(
                    old(self)@,
                    caller@,
                    event_id,
                    price,
                    title@,
                    description@,
                )
                &&& match r {
                    Ok(n) => {
                        &&& derived_address(event_seeds(caller@, event_id), old(self)@.program)
                            matches Some(p) && n.event@ == p.0
                        &&& n.organizer@ == caller@
                        &&& n.event_id == event_id
                    },
                    Err(_) => false,
                }
            },
            !init_event_ok(old(self)@, caller@, event_id) ==> {
                &&& r == Err::<CreateEvent, EventError>(
                    init_event_err(old(self)@, caller@, event_id),
                )
                &&& *final(self) == *old(self)
            },
    {
        let d = derive_event_address(&self.program, &caller, event_id);
        let (addr, bump) = match d {
            Some(p) => p,
            None => {
                return Err(EventError::InvalidSeeds);
            },
        };
        if self.events.contains(&addr) || self.balances.contains(&addr) {
            return Err(EventError::AccountInUse);
        }
        if self.reserve > 0 {
            if !self.balances.take_from(&caller, self.reserve) {
                return Err(EventError::InsufficientFunds);
            }
        }
        self.balances.insert(addr, self.reserve);
        let record = Event { price, title, description, organizer: caller, event_id, bump };
        self.events.insert(addr, record);
        proof {
            assert(self@ =~= init_event_next(
                old(self)@,
                caller@,
                event_id,
                price,
                title@,
                description@,
            ));
        }
        Ok(CreateEvent { event: addr, organizer: caller, event_id })
    }

    /// Grants `owner` a ticket for the event at `event`: the administrative
    /// issuance path, open to any caller, with no payment and no token mint.
    pub fn init_ticket(&mut self, event: &Address, owner: Address) -> (r: Result<
        CreateTicket,
        EventError,
    >)
        requires
            old(self).wf(),
        ensures
            final(self).wf(),
            init_ticket_ok(old(self)@, event@, owner@) ==> {
                &&& final(self)@ == init_ticket_next(old(self)@, event@, owner@)
                &&& match r {
                    Ok(n) => {
                        &&& derived_address(ticket_seeds(event@, owner@), old(self)@.program)
                            matches Some(p) && n.ticket@ == p.0
                        &&& n.event@ == event@
                        &&& n.owner@ == owner@
                    },
                    Err(_) => false,
                }
            },
            !init_ticket_ok(old(self)@, event@, owner@) ==> {
                &&& r == Err::<CreateTicket, EventError>(
                    init_ticket_err(old(self)@, event@, owner@),
                )
                &&& *final(self) == *old(self)
            },
    {
        if !self.events.contains(event) {
            return Err(EventError::AccountNotFound);
        }
        let d = derive_ticket_address(&self.program, event, &owner);
        let (addr, bump) = match d {
            Some(p) => p,
            None => {
                return Err(EventError::InvalidSeeds);
            },
        };
        if self.tickets.contains(&addr) {
            return Err(EventError::AccountInUse);
        }
        let record = Ticket {
            event: *event,
            owner,
            mint: Address::zero(),
            checked_in: false,
            bump,
        };
        self.tickets.insert(addr, record);
        proof {
            assert(self@ =~= init_ticket_next(old(self)@, event@, owner@));
        }
        Ok(CreateTicket { ticket: addr, event: *event, owner })
    }

    /// The self-service, paid, token-bound issuance path: `caller` pays the
    /// event's price into escrow (free events charge nothing), one unit of
    /// `mint` is minted into `holding` under the authority the mint derives,
    /// and the caller receives the ticket. All guards pass before anything
    /// mutates, so the payment and minting phases commit as one atomic step
    /// here; a runtime that composes two separate external services cannot
    /// promise that much on its own.
    pub fn join_event(
        &mut self,
        caller: Address,
        event: &Address,
        mint: Address,
        mint_authority: &Address,
        holding: &Address,
    ) -> (r: Result<JoinedEvent, EventError>)
        requires
            old(self).wf(),
            amount_or_zero(old(self)@.balances, caller@) + amount_or_zero(
                old(self)@.balances,
                event@,
            ) <= u64::MAX,
            amount_or_zero(old(self)@.tokens, holding@) < u64::MAX,
        ensures
            final(self).wf(),
            join_event_ok(old(self)@, caller@, event@, mint@, mint_authority@) ==> {
                &&& final(self)@ == join_event_next(old(self)@, caller@, event@, mint@, holding@)
                &&& match r {
                    Ok(n) => n.event@ == event@ && n.attendee@ == caller@,
                    Err(_) => false,
                }
            },
            !join_event_ok(old(self)@, caller@, event@, mint@, mint_authority@) ==> {
                &&& r == Err::<JoinedEvent, EventError>(
                    join_event_err(old(self)@, caller@, event@, mint@, mint_authority@),
                )
                &&& *final(self) == *old(self)
            },
    {
        let ei = match self.events.index_of(event) {
            None => {
                return Err(EventError::AccountNotFound);
            },
            Some(i) => i,
        };
        let price = self.events.entries[ei].1.price;
        let d = derive_ticket_address(&self.program, event, &caller);
        let (taddr, tbump) = match d {
            None => {
                return Err(EventError::InvalidSeeds);
            },
            Some(p) => p,
        };
        if self.tickets.contains(&taddr) {
            return Err(EventError::AccountInUse);
        }
        let m = derive_mint_authority(&self.program, &mint);
        let maddr = match m {
            None => {
                return Err(EventError::InvalidSeeds);
            },
            Some(q) => q.0,
        };
        if !maddr.same(mint_authority) {
            return Err(EventError::WrongMintAuthority);
        }
        if price > 0 {
            if !self.balances.take_from(&caller, price) {
                return Err(EventError::InsufficientFunds);
            }
            self.balances.add_to(event, price);
        }
        self.tokens.add_to(holding, 1);
        let record = Ticket { event: *event, owner: caller, mint, checked_in: false, bump: tbump };
        self.tickets.insert(taddr, record);
        proof {
            assert(self@ =~= join_event_next(old(self)@, caller@, event@, mint@, holding@));
        }
        Ok(JoinedEvent { event: *event, attendee: caller })
    }

    /// Flips the ticket at `ticket` from not-checked-in to checked-in,
    /// exactly once, gated on the caller being the event's organizer and the
    /// ticket belonging to the event; `now` is the ledger timestamp the
    /// notification carries.
    pub fn check_in(&mut self, caller: Address, event: &Address, ticket: &Address, now: i64) -> (r:
        Result<CheckedIn, EventError>)
        requires
            old(self).wf(),
        ensures
            final(self).wf(),
            check_in_ok(old(self)@, caller@, event@, ticket@) ==> {
                &&& final(self)@ == check_in_next(old(self)@, ticket@)
                &&& match r {
                    Ok(n) => n.ticket@ == ticket@ && n.at == now,
                    Err(_) => false,
                }
            },
            !check_in_ok(old(self)@, caller@, event@, ticket@) ==> {
                &&& r == Err::<CheckedIn, EventError>(
                    check_in_err(old(self)@, caller@, event@, ticket@),
                )
                &&& *final(self) == *old(self)
            },
    {
        let ei = match self.events.index_of(event) {
            None => {
                return Err(EventError::AccountNotFound);
            },
            Some(i) => i,
        };
        let ti = match self.tickets.index_of(ticket) {
            None => {
                return Err(EventError::AccountNotFound);
            },
            Some(i) => i,
        };
        let organizer = self.events.entries[ei].1.organizer;
        if !organizer.same(&caller) {
            return Err(EventError::Unauthorized);
        }
        let t = self.tickets.entries[ti].1;
        if !t.event.same(event) {
            return Err(EventError::WrongEvent);
        }
        if t.checked_in {
            return Err(EventError::AlreadyCheckedIn);
        }
        self.tickets.update_value(ti, Ticket { checked_in: true, ..t });
        proof {
            assert(self@ =~= check_in_next(old(self)@, ticket@));
        }
        Ok(CheckedIn { ticket: *ticket, at: now })
    }

    /// Pays escrow out of the event account to the organizer: a request of
    /// zero, or of more than is available, pays exactly the available
    /// balance, so the account never drops below its reserve.
    pub fn withdraw(&mut self, caller: Address, event: &Address, amount: u64) -> (r: Result<
        Withdrawn,
        EventError,
    >)
        requires
            old(self).wf(),
            amount_or_zero(old(self)@.balances, caller@) + amount_or_zero(
                old(self)@.balances,
                event@,
            ) <= u64::MAX,
        ensures
            final(self).wf(),
            withdraw_ok(old(self)@, caller@, event@) ==> {
                &&& final(self)@ == withdraw_next(old(self)@, caller@, event@, amount)
                &&& amount_or_zero(final(self)@.balances, event@) >= old(self)@.reserve
                &&& match r {
                    Ok(n) => {
                        &&& n.event@ == event@
                        &&& n.to@ == caller@
                        &&& n.amount == withdraw_amount(old(self)@, event@, amount)
                    },
                    Err(_) => false,
                }
            },
            !withdraw_ok(old(self)@, caller@, event@) ==> {
                &&& r == Err::<Withdrawn, EventError>(withdraw_err(old(self)@, caller@, event@))
                &&& *final(self) == *old(self)
            },
    {
        let ei = match self.events.index_of(event) {
            None => {
                return Err(EventError::AccountNotFound);
            },
            Some(i) => i,
        };
        let organizer = self.events.entries[ei].1.organizer;
        if !organizer.same(&caller) {
            return Err(EventError::Unauthorized);
        }
        let balance = self.balance_of(event);
        let available = if balance >= self.reserve {
            balance - self.reserve
        } else {
            0
        };
        if available == 0 {
            return Err(EventError::NoFunds);
        }
        let pay = if amount == 0 || amount > available {
            available
        } else {
            amount
        };
        let debited = self.balances.take_from(event, pay);
        proof {
            assert(debited);
        }
        self.balances.add_to(&caller, pay);
        proof {
            assert(self@ =~= withdraw_next(old(self)@, caller@, event@, amount));
        }
        Ok(Withdrawn { event: *event, to: caller, amount: pay })
    }
}

} // verus!
