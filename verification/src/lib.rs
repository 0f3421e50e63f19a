//! The core of an authoritative simulation server: the world of moving
//! entities, the latest-value broadcaster that hands its snapshots to any
//! number of connection handlers, and the request/response protocol by which
//! a viewer obtains a boundary-filtered view of the world.
//!
//! Nothing here performs I/O, draws random numbers or sleeps. The caller
//! owns sockets, threads and clocks, and feeds this crate plain values.

pub mod broadcast;
pub mod client;
pub mod engine;
pub mod handler;
pub mod protocol;
pub mod scalar;
pub mod snapshot;
