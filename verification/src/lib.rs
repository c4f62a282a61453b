//! Validation and assembly of person records for a registration endpoint.
//!
//! The crate turns the decoded body of a creation request into a validated
//! person record, gives it a fresh identifier and renders it back into the
//! textual form that goes over the wire.

pub mod date;
pub mod error;
pub mod ident;
pub mod pessoa;
