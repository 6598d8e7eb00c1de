//! A restaurant table-reservation service: restaurants register and log
//! in with an opaque access token, lay out tables, and take, confirm and
//! cancel reservations.
//!
//! The heart of the crate is [`store::Store`], an in-memory document store
//! whose well-formedness invariant carries the service's rules: unique
//! restaurant names, external references and access tokens; unique table
//! names per restaurant; at most one active reservation per (table, date,
//! time) slot; and party sizes within the bounds of their tables. Every
//! operation states exactly on which inputs it succeeds and which error
//! each rejected input is answered with.

pub mod datetime;
pub mod errors;
pub mod models;
pub mod reservation;
pub mod restaurant;
pub mod store;
pub mod table;
pub mod token;
pub mod valid;
