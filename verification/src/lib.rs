//! A verified core for a GPU-cloud command-line client.
//!
//! The library models the provider's catalog of instance types, the
//! availability poller that waits for a region with spare capacity, and the
//! acquisition state machine that launches an instance and waits for its
//! network address. All network traffic, rendering and credential handling
//! live outside the library and exchange plain values with it.

pub mod catalog;
pub mod model;
pub mod orchestrator;
pub mod poller;
