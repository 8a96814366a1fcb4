use vstd::prelude::*;

use crate::address::Address;

verus! {

/// What the outside derivation returns for a list of seeds and a program id:
/// either the derived sub-account address with its bump byte, or nothing when
/// no bump yields a usable address. The result depends on the arguments alone,
/// so any party can recompute an address without a lookup table.
pub uninterp spec fn derived_address(seeds: Seq<Seq<u8>>, program: Seq<u8>) -> Option<
    (Seq<u8>, u8),
>;

/// The view of a concrete derivation result, for stating contracts against
/// `derived_address`.
pub open spec fn derived_view(r: Option<(Address, u8)>) -> Option<(Seq<u8>, u8)> {
    match r {
        Some(p) => Some((p.0@, p.1)),
        None => None,
    }
}

/// Relies on `Pubkey::try_find_program_address` (solana-address, re-exported
/// through anchor-lang): it computes the program-derived address and bump for
/// the given seeds and program id, a pure function of its arguments, and
/// returns `None` in the statistically improbable event that no bump yields a
/// valid address or when a precondition on the seeds is violated.
#[verifier::external_body]
fn find_derived_address(seeds: &Vec<Vec<u8>>, program: &Address) -> (r: Option<(Address, u8)>)
    ensures
        derived_view(r) == derived_address(seeds.deep_view(), program@),
{
    let mut refs: Vec<&[u8]> = Vec::new();
    for s in seeds.iter() {
        refs.push(s.as_slice());
    }
    let pid = anchor_lang::prelude::Pubkey::new_from_array(program.bytes);
    match anchor_lang::prelude::Pubkey::try_find_program_address(&refs, &pid) {
        Some((pk, bump)) => Some((Address { bytes: pk.to_bytes() }, bump)),
        None => None,
    }
}

/// The seed tag under which event accounts derive.
pub open spec fn event_tag() -> Seq<u8> {
    seq![101u8, 118u8, 101u8, 110u8, 116u8]
}

/// The seed tag under which ticket accounts derive.
pub open spec fn ticket_tag() -> Seq<u8> {
    seq![116u8, 105u8, 99u8, 107u8, 101u8, 116u8]
}

/// The seed tag under which minting authorities derive.
pub open spec fn mint_authority_tag() -> Seq<u8> {
    seq![109u8, 105u8, 110u8, 116u8, 95u8, 97u8, 117u8, 116u8, 104u8]
}

/// The seeds of an event account: tag "event", the organizer identity, and
/// the event id in little-endian bytes.
pub open spec fn event_seeds(organizer: Seq<u8>, event_id: u64) -> Seq<Seq<u8>> {
    seq![event_tag(), organizer, vstd::bytes::spec_u64_to_le_bytes(event_id)]
}

/// The seeds of a ticket account: tag "ticket", the owning event's address,
/// and the ticket owner's identity.
pub open spec fn ticket_seeds(event: Seq<u8>, owner: Seq<u8>) -> Seq<Seq<u8>> {
    seq![ticket_tag(), event, owner]
}

/// The seeds of a minting authority: tag "mint_auth" and the mint's address.
pub open spec fn mint_authority_seeds(mint: Seq<u8>) -> Seq<Seq<u8>> {
    seq![mint_authority_tag(), mint]
}

fn address_bytes(a: &Address) -> (r: Vec<u8>)
    ensures
        r@ == a@,
{
    vstd::slice::slice_to_vec(a.bytes.as_slice())
}

fn event_tag_bytes() -> (r: Vec<u8>)
    ensures
        r@ == event_tag(),
{
    let r: Vec<u8> = vec![101u8, 118u8, 101u8, 110u8, 116u8];
    proof {
        assert(r@ =~= event_tag());
    }
    r
}

fn ticket_tag_bytes() -> (r: Vec<u8>)
    ensures
        r@ == ticket_tag(),
{
    let r: Vec<u8> = vec![116u8, 105u8, 99u8, 107u8, 101u8, 116u8];
    proof {
        assert(r@ =~= ticket_tag());
    }
    r
}

fn mint_authority_tag_bytes() -> (r: Vec<u8>)
    ensures
        r@ == mint_authority_tag(),
{
    let r: Vec<u8> = vec![109u8, 105u8, 110u8, 116u8, 95u8, 97u8, 117u8, 116u8, 104u8];
    proof {
        assert(r@ =~= mint_authority_tag());
    }
    r
}

/// The address and bump of the event account that `organizer` and `event_id`
/// determine under `program`.
pub fn derive_event_address(program: &Address, organizer: &Address, event_id: u64) -> (r: Option<
    (Address, u8),
>)
    ensures
        derived_view(r) == derived_address(event_seeds(organizer@, event_id), program@),
{
    let mut seeds: Vec<Vec<u8>> = Vec::new();
    seeds.push(event_tag_bytes());
    seeds.push(address_bytes(organizer));
    seeds.push(vstd::bytes::u64_to_le_bytes(event_id));
    proof {
        assert(seeds.deep_view() =~~= event_seeds(organizer@, event_id));
    }
    find_derived_address(&seeds, program)
}

/// The address and bump of the ticket account that `event` and `owner`
/// determine under `program`.
pub fn derive_ticket_address(program: &Address, event: &Address, owner: &Address) -> (r: Option<
    (Address, u8),
>)
    ensures
        derived_view(r) == derived_address(ticket_seeds(event@, owner@), program@),
{
    let mut seeds: Vec<Vec<u8>> = Vec::new();
    seeds.push(ticket_tag_bytes());
    seeds.push(address_bytes(event));
    seeds.push(address_bytes(owner));
    proof {
        assert(seeds.deep_view() =~~= ticket_seeds(event@, owner@));
    }
    find_derived_address(&seeds, program)
}

/// The address and bump of the minting authority that `mint` determines under
/// `program`.
pub fn derive_mint_authority(program: &Address, mint: &Address) -> (r: Option<(Address, u8)>)
    ensures
        derived_view(r) == derived_address(mint_authority_seeds(mint@), program@),
{
    let mut seeds: Vec<Vec<u8>> = Vec::new();
    seeds.push(mint_authority_tag_bytes());
    seeds.push(address_bytes(mint));
    proof {
        assert(seeds.deep_view() =~~= mint_authority_seeds(mint@));
    }
    find_derived_address(&seeds, program)
}

} // verus!
