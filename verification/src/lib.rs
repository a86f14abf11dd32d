//! A verified core for a Lobsters-style benchmark workload driver.
//!
//! The library models the relational store that the benchmark drives as plain
//! data, and implements every page handler as a verified transition over that
//! model.  Each handler also returns the exact, ordered trace of statements
//! that the driver must issue against the real backend, so that the workload
//! (including its deliberately superfluous read round-trips) is reproduced
//! faithfully.  The connection-admission state machine, the request router and
//! the schema bootstrapper are verified as well; the unverified binary around
//! the library only performs the wire I/O that the traces describe.

#![verifier::loop_isolation(false)]

pub mod admission;
pub mod bootstrap;
pub mod laws;
pub mod listing;
pub mod num;
pub mod post;
pub mod request;
pub mod router;
pub mod session;
pub mod stmt;
pub mod store;
pub mod trans;
pub mod view;
pub mod vote;
