//! Ledger routing for `did:ethr` identifiers and validation of AnonCreds
//! revocation registry entries, with their contracts checked by Verus.

pub mod error;
pub mod text;
pub mod types;
pub mod ledger_router;
pub mod ffi;
pub mod revocation_registry_entry;
