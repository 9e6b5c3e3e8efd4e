use vstd::prelude::*;

verus! {

/// Failure taxonomy shared by every operation of the exchange core.
///
/// Every error is surfaced synchronously and is fatal to the operation that
/// raised it: an operation either commits all of its described mutations or
/// leaves every piece of state exactly as it was.
#[derive(Clone, Copy, Debug, PartialEq, Eq, Structural)]
pub enum AmmError {
    /// The acting party does not match the required authority (pool owner,
    /// pending authority, escrow authority).
    AuthorizationFailure,
    /// A parameter is out of bounds, the pool kind does not admit the
    /// requested operation, the pool is not active, or a provenance check
    /// failed.
    ValidationFailure,
    /// A counterpart balance is too low for the requested transfer.
    InsufficientBalance,
    /// Overflow or underflow in a price or fee computation; never masked by
    /// wrapping or saturation.
    ArithmeticFault,
    /// A structural contradiction, such as closing a pool that still holds
    /// inventory or escrowed value.
    InvariantViolation,
}

/// Failures of the asset-registry boundary when it is asked whether an asset
/// is a verified member of a collection.
#[derive(Clone, Copy, Debug, PartialEq, Eq, Structural)]
pub enum ProvenanceError {
    /// The asset's record carries no collection link at all.
    MetadataAbsent,
    /// The asset is not a verified member, or a record fails the structural
    /// requirements (an asset that is itself a collection parent, or a
    /// collection that does not declare an immutable supply).
    NotVerified,
    /// The asset's collection link, or the collection record itself, points
    /// at the wrong collection (including a collection nested in another).
    WrongCollection,
}

} // verus!
