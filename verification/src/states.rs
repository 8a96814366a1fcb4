use vstd::prelude::*;

use crate::address::Address;

verus! {

/// The longest title an event account stores.
pub const TITLE_LENGTH: usize = 50;

/// The longest description an event account stores.
pub const DESCRIPTION_LENGTH: usize = 500;

/// The record of one event. Its escrow balance is not a field here: the
/// ledger holds it as the event account's funded balance, keyed by the same
/// address.
pub struct Event {
    pub price: u64,
    pub title: String,
    pub description: String,
    pub organizer: Address,
    pub event_id: u64,
    pub bump: u8,
}

/// The mathematical content of an [`Event`].
#[verifier::ext_equal]
pub struct EventV {
    pub price: u64,
    pub title: Seq<char>,
    pub description: Seq<char>,
    pub organizer: Seq<u8>,
    pub event_id: u64,
    pub bump: u8,
}

impl View for Event {
    type V = EventV;

    open spec fn view(&self) -> EventV {
        EventV {
            price: self.price,
            title: self.title@,
            description: self.description@,
            organizer: self.organizer@,
            event_id: self.event_id,
            bump: self.bump,
        }
    }
}

/// The per-attendee record of one ticket: the event it belongs to, its owner,
/// the token mint it is bound to (the zero address while unminted), and its
/// single-use check-in flag.
#[derive(Clone, Copy)]
pub struct Ticket {
    pub event: Address,
    pub owner: Address,
    pub mint: Address,
    pub checked_in: bool,
    pub bump: u8,
}

/// The mathematical content of a [`Ticket`].
#[verifier::ext_equal]
pub struct TicketV {
    pub event: Seq<u8>,
    pub owner: Seq<u8>,
    pub mint: Seq<u8>,
    pub checked_in: bool,
    pub bump: u8,
}

impl View for Ticket {
    type V = TicketV;

    open spec fn view(&self) -> TicketV {
        TicketV {
            event: self.event@,
            owner: self.owner@,
            mint: self.mint@,
            checked_in: self.checked_in,
            bump: self.bump,
        }
    }
}

} // verus!
