//! Core of a versioned-pointer registry: one ledger slot per model identity,
//! holding the content identifier of the model's current artifact and the
//! identity allowed to replace it.
//!
//! The host ledger supplies storage, transaction atomicity and signature
//! verification; this crate holds the state machine itself. A slot is either
//! uninitialized or holds exactly one record; record creation is one-shot,
//! pointer updates are gated on the stored authority, and every failed
//! operation leaves the slot exactly as it was.

pub mod errors;
pub mod laws;
pub mod record;
pub mod registry;

pub use errors::RegistryError;
pub use record::{Identity, ModelAccount, ModelAccountView, MAX_CID_LEN};
pub use registry::{initialize_model, update_model, Slot};
