use vstd::prelude::*;

use crate::address::Address;

verus! {

/// Notification of a freshly created event account.
#[derive(Clone, Copy, Debug)]
pub struct CreateEvent {
    pub event: Address,
    pub organizer: Address,
    pub event_id: u64,
}

/// Notification of a freshly issued ticket.
#[derive(Clone, Copy, Debug)]
pub struct CreateTicket {
    pub ticket: Address,
    pub event: Address,
    pub owner: Address,
}

/// Notification of a completed check-in, carrying the ledger timestamp the
/// caller observed.
#[derive(Clone, Copy, Debug)]
pub struct CheckedIn {
    pub ticket: Address,
    pub at: i64,
}

/// Notification of a completed withdrawal.
#[derive(Clone, Copy, Debug)]
pub struct Withdrawn {
    pub event: Address,
    pub to: Address,
    pub amount: u64,
}

/// Notification of an attendee who joined an event.
#[derive(Clone, Copy, Debug)]
pub struct JoinedEvent {
    pub event: Address,
    pub attendee: Address,
}

} // verus!
