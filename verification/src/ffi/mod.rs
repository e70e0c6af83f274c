//! The interface offered to foreign-language bindings: records in place of
//! maps, one client per ledger, and errors for the caller.

pub mod client;
pub mod json;
pub mod ledger_router;
