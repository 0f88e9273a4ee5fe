//! Selection state of an onboarding account picker: the listed accounts, a
//! circular highlight, committing a choice against an account directory, and
//! the lines the picker shows.
//!
//! The picker performs no I/O. Directory calls and writes to the shared
//! onboarding cells are returned to the caller as values, and the directory's
//! answers are handed back in.

pub mod account;
pub mod laws;
pub mod picker;
pub mod render;
