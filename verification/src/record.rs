use vstd::prelude::*;

verus! {

/// Greatest number of bytes a content identifier may occupy, imposed by the
/// host ledger's bound on the storage size of one record.
pub const MAX_CID_LEN: usize = 256;

/// A fixed-size reference to a principal, as the host ledger's signature
/// check resolved it: 32 bytes, held as four 64-bit limbs.
///
/// The ledger verifies that the submitted transaction was signed by this
/// principal before any operation here runs; the core only compares
/// identities for equality.
#[derive(Clone, Copy, Debug, PartialEq, Eq, Structural)]
pub struct Identity {
    pub k0: u64,
    pub k1: u64,
    pub k2: u64,
    pub k3: u64,
}

/// A content identifier is acceptable when it is non-empty and fits the
/// ledger's size bound. The bytes themselves are opaque to the registry:
/// no structure of the identifier is validated here.
pub open spec fn valid_cid(cid: Seq<u8>) -> bool {
    0 < cid.len() <= MAX_CID_LEN
}

/// The mathematical value of a record: the bytes of its current content
/// identifier, and the identity allowed to replace them.
pub struct ModelAccountView {
    pub cid: Seq<u8>,
    pub authority: Identity,
}

/// The persisted record for one model identity: the content identifier of
/// the current artifact version, and the only identity permitted to point
/// the record at a new version.
///
/// Pure state; the transitions live with [`crate::registry::Slot`].
#[derive(Clone, Debug)]
pub struct ModelAccount {
    /// Content identifier of the current artifact version, an opaque,
    /// bounded byte string naming an immutable artifact in an external
    /// content-addressed store.
    pub cid: Vec<u8>,
    /// The principal permitted to perform future updates. Set once when the
    /// record is created and never changed afterwards.
    pub authority: Identity,
}

impl View for ModelAccount {
    type V = ModelAccountView;

    open spec fn view(&self) -> ModelAccountView {
        ModelAccountView { cid: self.cid@, authority: self.authority }
    }
}

/// A record is well formed when its content identifier is valid.
pub open spec fn record_wf(r: ModelAccountView) -> bool {
    valid_cid(r.cid)
}

} // verus!
