use vstd::prelude::*;

verus! {

/// Every way an operation can fail. The first four are the operations' own
/// guard failures; the rest surface failures of the surrounding runtime and
/// of the external transfer and derivation primitives, so a caller can branch
/// on a named condition rather than a generic fault.
#[derive(Clone, Copy, Debug, PartialEq, Eq, Structural)]
pub enum EventError {
    /// The caller is not the identity an organizer-gated operation demands.
    Unauthorized,
    /// A withdrawal was requested while no balance above the reserve is held.
    NoFunds,
    /// The ticket does not belong to the event named by the operation.
    WrongEvent,
    /// The ticket has already been checked in once.
    AlreadyCheckedIn,
    /// No account is held at a supplied address.
    AccountNotFound,
    /// An account already exists at the address a creation would use.
    AccountInUse,
    /// No usable address derives from the seeds (statistically improbable).
    InvalidSeeds,
    /// The supplied minting authority is not the one the mint derives.
    WrongMintAuthority,
    /// A payer's balance does not cover a required transfer.
    InsufficientFunds,
}

} // verus!
