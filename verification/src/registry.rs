use vstd::prelude::*;

use crate::errors::RegistryError;
use crate::record::{record_wf, valid_cid, Identity, ModelAccount, ModelAccountView, MAX_CID_LEN};

verus! {

/// One uniquely addressed storage location of the host ledger.
///
/// A slot is either uninitialized (it was allocated but never held a
/// record) or holds exactly one record. The only way to move a slot from
/// the first state to the second is a successful [`initialize_model`], and
/// nothing here ever moves it back: record destruction is a facility of the
/// host ledger, not of this core.
///
/// The ledger serializes all transactions that touch one slot and commits
/// each atomically, so an operation here always sees and leaves one
/// consistent state; the core keeps no cache of its own beside it.
pub struct Slot {
    record: Option<ModelAccount>,
}

impl View for Slot {
    type V = Option<ModelAccountView>;

    closed spec fn view(&self) -> Option<ModelAccountView> {
        match self.record {
            Some(r) => Some(r@),
            None => None,
        }
    }
}

/// A slot is well formed when the record it holds, if any, carries a valid
/// content identifier. Freshly allocated slots are trivially well formed,
/// and both transitions preserve well-formedness.
pub open spec fn slot_wf(s: Option<ModelAccountView>) -> bool {
    s matches Some(r) ==> record_wf(r)
}

/// What initializing a slot does: the slot's next state, and the result
/// handed back to the caller.
///
/// A slot that already holds a record is never overwritten; an invalid
/// initial identifier is rejected; otherwise the slot now binds the
/// identifier to the invoking identity as its authority.
pub open spec fn spec_initialize(
    s: Option<ModelAccountView>,
    cid: Seq<u8>,
    caller: Identity,
) -> (Option<ModelAccountView>, Result<(), RegistryError>) {
    if s is Some {
        (s, Err(RegistryError::AlreadyInitialized))
    } else if !valid_cid(cid) {
        (s, Err(RegistryError::InvalidInput))
    } else {
        (Some(ModelAccountView { cid, authority: caller }), Ok(()))
    }
}

/// What updating a slot does: the slot's next state, and the result handed
/// back to the caller.
///
/// A slot without a record cannot be updated (and in particular cannot be
/// implicitly created by an update); only the stored authority may replace
/// the identifier; an invalid replacement is rejected. On success the
/// identifier is replaced whole and the authority is untouched.
pub open spec fn spec_update(
    s: Option<ModelAccountView>,
    new_cid: Seq<u8>,
    caller: Identity,
) -> (Option<ModelAccountView>, Result<(), RegistryError>) {
    match s {
        None => (s, Err(RegistryError::NotFound)),
        Some(r) => {
            if caller != r.authority {
                (s, Err(RegistryError::Unauthorized))
            } else if !valid_cid(new_cid) {
                (s, Err(RegistryError::InvalidInput))
            } else {
                (Some(ModelAccountView { cid: new_cid, authority: r.authority }), Ok(()))
            }
        },
    }
}

impl Slot {
    /// A freshly allocated slot, holding no record yet. Allocation itself
    /// (paying the ledger for the storage) is the host's concern; a slot
    /// value here stands for a location the ledger has already provided.
    pub fn new() -> (s: Slot)
        ensures
            s@ is None,
    {
        Slot { record: None }
    }

    /// Whether the slot currently holds a record.
    pub fn is_initialized(&self) -> (b: bool)
        ensures
            b == (self@ is Some),
    {
        self.record.is_some()
    }

    /// The content identifier of the record's current artifact version.
    pub fn cid(&self) -> (c: &Vec<u8>)
        requires
            self@ is Some,
        ensures
            c@ == self@->Some_0.cid,
    {
        match &self.record {
            Some(r) => &r.cid,
            None => unreached(),
        }
    }

    /// The identity permitted to update the record.
    pub fn authority(&self) -> (a: Identity)
        requires
            self@ is Some,
        ensures
            a == self@->Some_0.authority,
    {
        match &self.record {
            Some(r) => r.authority,
            None => unreached(),
        }
    }

    /// A read of the whole slot: the most recently committed record, or
    /// nothing when the slot was never initialized. Reads are whole-record;
    /// the ledger's per-transaction atomicity rules a torn read out.
    pub fn read(&self) -> (r: Option<&ModelAccount>)
        ensures
            match r {
                Some(rec) => self@ == Some(rec@),
                None => self@ is None,
            },
    {
        self.record.as_ref()
    }
}

/// Creates the record for a slot: binds the slot to an initial content
/// identifier and records the invoking identity as the record's authority.
///
/// Succeeds exactly when the slot held no record and the identifier is
/// valid. Re-initializing an occupied slot fails with `AlreadyInitialized`
/// and an empty or oversized identifier with `InvalidInput`; either failure
/// leaves the slot exactly as it was.
pub fn initialize_model(slot: &mut Slot, cid: Vec<u8>, caller: Identity) -> (r: Result<
    (),
    RegistryError,
>)
    ensures
        (final(slot)@, r) == spec_initialize(old(slot)@, cid@, caller),
        r is Ok <==> (old(slot)@ is None && valid_cid(cid@)),
        r is Err ==> final(slot)@ == old(slot)@,
{
    if slot.record.is_some() {
        return Err(RegistryError::AlreadyInitialized);
    }
    if cid.len() == 0 || cid.len() > MAX_CID_LEN {
        return Err(RegistryError::InvalidInput);
    }
    slot.record = Some(ModelAccount { cid, authority: caller });
    Ok(())
}

/// Replaces the content identifier of the record in a slot, leaving the
/// stored authority untouched.
///
/// Succeeds exactly when the slot holds a record, the invoking identity is
/// that record's authority, and the replacement identifier is valid. An
/// uninitialized slot fails with `NotFound`, a caller other than the
/// authority with `Unauthorized`, an empty or oversized identifier with
/// `InvalidInput`; every failure leaves the slot exactly as it was. The
/// prior identifier is not retained anywhere: the record is last-value-wins.
pub fn update_model(slot: &mut Slot, new_cid: Vec<u8>, caller: Identity) -> (r: Result<
    (),
    RegistryError,
>)
    ensures
        (final(slot)@, r) == spec_update(old(slot)@, new_cid@, caller),
        r is Ok <==> (old(slot)@ matches Some(rec) && caller == rec.authority && valid_cid(
            new_cid@,
        )),
        r is Err ==> final(slot)@ == old(slot)@,
{
    match &mut slot.record {
        None => Err(RegistryError::NotFound),
        Some(rec) => {
            if caller != rec.authority {
                Err(RegistryError::Unauthorized)
            } else if new_cid.len() == 0 || new_cid.len() > MAX_CID_LEN {
                Err(RegistryError::InvalidInput)
            } else {
                rec.cid = new_cid;
                Ok(())
            }
        },
    }
}

} // verus!
