use vstd::prelude::*;

use crate::addressing::{derived_address, event_seeds, ticket_seeds};
use crate::errors::EventError;
use crate::ledger::{
    check_in_err, check_in_next, check_in_ok, init_event_err, init_event_next, init_event_ok,
    init_ticket_next, init_ticket_ok, join_event_next, join_event_ok, withdraw_next, withdraw_ok,
    LedgerView,
};
use crate::states::EventV;

verus! {

/// Every stored record sits at the address its own fields derive: anyone can
/// recompute where an event lives from its organizer and id, and where a
/// ticket lives from its event and owner, without a lookup table.
pub open spec fn addresses_consistent(v: LedgerView) -> bool {
    &&& forall|a: Seq<u8>| #[trigger] v.events.contains_key(a) ==> derived_address(
        event_seeds(v.events[a].organizer, v.events[a].event_id),
        v.program,
    ) == Some((a, v.events[a].bump))
    &&& forall|a: Seq<u8>| #[trigger] v.tickets.contains_key(a) ==> derived_address(
        ticket_seeds(v.tickets[a].event, v.tickets[a].owner),
        v.program,
    ) == Some((a, v.tickets[a].bump))
}

/// A ledger without accounts is trivially consistently addressed.
pub proof fn law_empty_ledger_consistently_addressed(v: LedgerView)
    requires
        v.events == Map::<Seq<u8>, EventV>::empty(),
        v.tickets == Map::<Seq<u8>, crate::states::TicketV>::empty(),
    ensures
        addresses_consistent(v),
{
}

/// Each operation keeps the ledger consistently addressed: creations store
/// the new record at its derived address, and no operation moves a record or
/// rewrites the fields an address derives from.
pub proof fn law_operations_preserve_addressing(
    v: LedgerView,
    caller: Seq<u8>,
    event_id: u64,
    price: u64,
    title: Seq<char>,
    description: Seq<char>,
    event: Seq<u8>,
    owner: Seq<u8>,
    mint: Seq<u8>,
    mint_authority: Seq<u8>,
    holding: Seq<u8>,
    ticket: Seq<u8>,
    amount: u64,
)
    requires
        addresses_consistent(v),
    ensures
        init_event_ok(v, caller, event_id) ==> addresses_consistent(
            init_event_next(v, caller, event_id, price, title, description),
        ),
        init_ticket_ok(v, event, owner) ==> addresses_consistent(
            init_ticket_next(v, event, owner),
        ),
        join_event_ok(v, caller, event, mint, mint_authority) ==> addresses_consistent(
            join_event_next(v, caller, event, mint, holding),
        ),
        check_in_ok(v, caller, event, ticket) ==> addresses_consistent(check_in_next(v, ticket)),
        withdraw_ok(v, caller, event) ==> addresses_consistent(
            withdraw_next(v, caller, event, amount),
        ),
{
}

/// Creating an event twice under the same organizer and id: after the first
/// creation succeeds, a second attempt cannot, and it fails with the
/// address-collision error; and the created record holds exactly the
/// creation inputs.
pub proof fn law_duplicate_event_rejected(
    v: LedgerView,
    caller: Seq<u8>,
    event_id: u64,
    price: u64,
    title: Seq<char>,
    description: Seq<char>,
)
    requires
        init_event_ok(v, caller, event_id),
    ensures
        ({
            let v2 = init_event_next(v, caller, event_id, price, title, description);
            &&& !init_event_ok(v2, caller, event_id)
            &&& init_event_err(v2, caller, event_id) == EventError::AccountInUse
            &&& (derived_address(event_seeds(caller, event_id), v.program) matches Some(p)
                && v2.events[p.0] == (EventV {
                price,
                title,
                description,
                organizer: caller,
                event_id,
                bump: p.1,
            }))
        }),
{
}

/// A granted ticket starts not checked in.
pub proof fn law_granted_ticket_starts_unchecked(v: LedgerView, event: Seq<u8>, owner: Seq<u8>)
    requires
        init_ticket_ok(v, event, owner),
    ensures
        ({
            let v2 = init_ticket_next(v, event, owner);
            derived_address(ticket_seeds(event, owner), v.program) matches Some(p)
                ==> !v2.tickets[p.0].checked_in
        }),
{
}

/// A ticket issued by joining starts not checked in.
pub proof fn law_joined_ticket_starts_unchecked(
    v: LedgerView,
    caller: Seq<u8>,
    event: Seq<u8>,
    mint: Seq<u8>,
    mint_authority: Seq<u8>,
    holding: Seq<u8>,
)
    requires
        join_event_ok(v, caller, event, mint, mint_authority),
    ensures
        ({
            let v2 = join_event_next(v, caller, event, mint, holding);
            derived_address(ticket_seeds(event, caller), v.program) matches Some(p)
                ==> !v2.tickets[p.0].checked_in
        }),
{
}

/// A ticket checks in exactly once: a successful check-in sets its flag, and
/// a second check-in of the same ticket cannot succeed; it fails with
/// `AlreadyCheckedIn` and leaves the flag set.
pub proof fn law_check_in_only_once(
    v: LedgerView,
    caller: Seq<u8>,
    event: Seq<u8>,
    ticket: Seq<u8>,
)
    requires
        check_in_ok(v, caller, event, ticket),
    ensures
        ({
            let v2 = check_in_next(v, ticket);
            &&& v2.tickets[ticket].checked_in
            &&& !check_in_ok(v2, caller, event, ticket)
            &&& check_in_err(v2, caller, event, ticket) == EventError::AlreadyCheckedIn
        }),
{
}

} // verus!
