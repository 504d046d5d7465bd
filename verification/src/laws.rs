use vstd::prelude::*;

use crate::errors::RegistryError;
use crate::record::{Identity, ModelAccountView, valid_cid};
use crate::registry::{slot_wf, spec_initialize, spec_update};

verus! {

/// Single allocation: once an initialization of a slot has succeeded, every
/// further initialization of that slot fails with `AlreadyInitialized` and
/// leaves the record exactly as the first initialization wrote it, whatever
/// identifier and identity the second attempt carries.
pub proof fn lemma_single_allocation(
    s0: Option<ModelAccountView>,
    cid0: Seq<u8>,
    a0: Identity,
    cid1: Seq<u8>,
    a1: Identity,
)
    requires
        spec_initialize(s0, cid0, a0).1 is Ok,
    ensures
        spec_initialize(spec_initialize(s0, cid0, a0).0, cid1, a1).1 == Err::<
            (),
            RegistryError,
        >(RegistryError::AlreadyInitialized),
        spec_initialize(spec_initialize(s0, cid0, a0).0, cid1, a1).0 == spec_initialize(
            s0,
            cid0,
            a0,
        ).0,
{
}

/// Authority gating: an update of an initialized slot invoked by any
/// identity other than the stored authority fails with `Unauthorized` and
/// changes nothing; invoked by the authority with a valid identifier, it
/// succeeds.
pub proof fn lemma_authority_gating(
    s: Option<ModelAccountView>,
    new_cid: Seq<u8>,
    caller: Identity,
)
    requires
        s is Some,
    ensures
        caller != s->Some_0.authority ==> spec_update(s, new_cid, caller) == (
            s,
            Err::<(), RegistryError>(RegistryError::Unauthorized),
        ),
        caller == s->Some_0.authority && valid_cid(new_cid) ==> spec_update(
            s,
            new_cid,
            caller,
        ).1 is Ok,
{
}

/// Read after update: immediately after a successful update, the record
/// holds exactly the new identifier, and no other field was altered — the
/// authority is the one the slot stored before.
pub proof fn lemma_update_read_back(s: Option<ModelAccountView>, new_cid: Seq<u8>, caller: Identity)
    requires
        spec_update(s, new_cid, caller).1 is Ok,
    ensures
        spec_update(s, new_cid, caller).0 == Some(
            ModelAccountView { cid: new_cid, authority: s->Some_0.authority },
        ),
{
}

/// Atomicity of failure: an operation that fails, with any error kind,
/// produces zero change to the slot's state.
pub proof fn lemma_failure_atomicity(s: Option<ModelAccountView>, cid: Seq<u8>, caller: Identity)
    ensures
        spec_initialize(s, cid, caller).1 is Err ==> spec_initialize(s, cid, caller).0 == s,
        spec_update(s, cid, caller).1 is Err ==> spec_update(s, cid, caller).0 == s,
{
}

/// No history: after two sequential successful updates, the slot's whole
/// state is the second identifier beside the authority the slot had at the
/// start. Neither the identifier the slot held before the first update nor
/// the one the first update wrote appears anywhere in that state, so no
/// read of the slot can recover them.
pub proof fn lemma_no_history(
    s0: Option<ModelAccountView>,
    cid1: Seq<u8>,
    a1: Identity,
    cid2: Seq<u8>,
    a2: Identity,
)
    requires
        spec_update(s0, cid1, a1).1 is Ok,
        spec_update(spec_update(s0, cid1, a1).0, cid2, a2).1 is Ok,
    ensures
        spec_update(spec_update(s0, cid1, a1).0, cid2, a2).0 == Some(
            ModelAccountView { cid: cid2, authority: s0->Some_0.authority },
        ),
{
}

/// The authority is written by initialization and never changes afterwards:
/// an update, whether it succeeds or fails, leaves the stored authority
/// exactly as it was.
pub proof fn lemma_update_keeps_authority(
    s: Option<ModelAccountView>,
    new_cid: Seq<u8>,
    caller: Identity,
)
    requires
        s is Some,
    ensures
        spec_update(s, new_cid, caller).0 is Some,
        spec_update(s, new_cid, caller).0->Some_0.authority == s->Some_0.authority,
{
}

/// Both transitions preserve well-formedness: starting from a well-formed
/// slot, the slot a transition leaves behind is well formed too. In
/// particular a record's identifier is never empty, from the moment the
/// record exists.
pub proof fn lemma_transitions_preserve_wf(
    s: Option<ModelAccountView>,
    cid: Seq<u8>,
    caller: Identity,
)
    requires
        slot_wf(s),
    ensures
        slot_wf(spec_initialize(s, cid, caller).0),
        slot_wf(spec_update(s, cid, caller).0),
{
}

} // verus!
