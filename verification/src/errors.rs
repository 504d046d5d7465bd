use vstd::prelude::*;

verus! {

/// The ways an operation on a record slot can fail.
///
/// Every failure is terminal for the attempted operation and aborts the
/// enclosing transaction with no change to the slot: the host ledger rolls
/// the whole transaction back, and this crate's operations promise the same
/// of the in-memory state they touch.
#[derive(Clone, Copy, Debug, PartialEq, Eq, Structural)]
pub enum RegistryError {
    /// Initialization was attempted on a slot that already holds a record.
    AlreadyInitialized,
    /// An update was attempted on a slot that holds no record yet.
    NotFound,
    /// The invoking identity is not the record's stored authority.
    Unauthorized,
    /// The supplied content identifier is empty or exceeds the size bound.
    InvalidInput,
    /// The host ledger could not pay for the storage of a new record; the
    /// ledger's allocation facility surfaces this, never the core itself.
    InsufficientResources,
}

} // verus!
