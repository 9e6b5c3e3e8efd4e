//! Exchange core of a bonding-curve automated market maker that swaps one
//! quote asset against non-fungible assets from a single verified collection.
//!
//! The crate models the pair state machine, its pricing algorithm, the
//! escrow/vault accounting and the fee-split protocol as pure state
//! transitions on plain values. The surrounding substrate (the ledger that
//! actually moves balances, the asset registry that stores provenance
//! records, and the address-derivation plumbing that proves custody) are
//! collaborators outside this crate; operations take their answers as
//! arguments and return the transfers to perform.

pub mod authority;
pub mod curve;
pub mod errors;
pub mod fees;
pub mod pool;
pub mod registry;
pub mod vault;
