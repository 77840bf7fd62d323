use vstd::prelude::*;

verus! {

/// Every failure aborts the enclosing unit of work and is surfaced to the
/// caller as one of these reasons; nothing is retried or locally recovered.
#[derive(Clone, Copy, Debug, PartialEq, Eq, Structural)]
pub enum Error {
    /// The caller lacks a capability the operation's rule demands.
    AuthorizationDenied,
    /// The identity id or asset id is already taken within its registry.
    DuplicateIdentifier,
    /// The exchange would overdraw the security-token vault.
    InsufficientReserve,
    /// The divisibility of a new fungible asset class lies outside 0..=18.
    InvalidDivisibility,
    /// The identifier is not a well-formed string local id.
    InvalidIdentifier,
}

} // verus!
