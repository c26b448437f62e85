//! Test-harness library for standing up a hermetic instance of a third-party
//! reference aggregator and driving it through a task's lifecycle.
//!
//! The library covers the pure logic of the harness: translating a task
//! description into the reference implementation's bootstrap schema,
//! resolving which container image to run, laying out the bootstrap
//! arguments, and the state machine of the background liveness pump with its
//! shutdown handshake. Container execution, HTTP traffic and process-global
//! logging live outside the library, which hands them plain values.

pub mod bootstrap;
pub mod hpke;
pub mod pump;
pub mod resolver;
pub mod translate;
pub mod task;
pub mod text;
