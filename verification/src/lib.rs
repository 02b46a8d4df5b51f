//! Graceful, multi-party shutdown coordination.
//!
//! Independent subsystems ("listeners") register with a [`coordinator::Coordinator`];
//! when a shutdown is requested, each listener gets a bounded opportunity to
//! finish in-flight work before the host's main loop is told to stop. A single
//! slow listener can never hang the process: an optional timeout forces
//! termination, reporting the listeners that never acknowledged.
//!
//! Times are instants on the host's monotonic clock, in whatever unit the host
//! picks (the same unit for the timeout and for every tick's `now`).

pub mod coordinator;
pub mod laws;
pub mod listener;
