//! Signal access for an SOVD gateway that is backed by a vehicle simulator.
//!
//! The library holds the decisions of the gateway: how a simulator base URL is
//! normalised, which simulator endpoint serves a signal, how backend failures
//! become SOVD data errors, and the component/resource topology that the gateway
//! publishes. The network calls themselves are made by the caller.

pub mod signal_backend;
pub mod simulator_backend;
pub mod simulator_topology;
