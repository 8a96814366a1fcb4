//! Verified core of a ticketed-event marketplace ledger.
//!
//! Organizers create events that hold an escrow balance, attendees join by
//! paying the event's price into escrow and receiving a unique ticket,
//! organizers check attendees in exactly once, and organizers withdraw the
//! escrow net of the account's minimum reserve.

pub mod address;
pub mod addressing;
pub mod errors;
pub mod events;
pub mod states;
pub mod table;
pub mod ledger;
pub mod laws;
