//! The decisions of a family of container network plugins: a bridge plugin,
//! an overlay plugin that hands on to it, and two address plugins.
//!
//! The library holds everything the plugins decide: how addresses, gateways
//! and routes are derived, which operations are asked of the host and in
//! which order, and how their outcomes are judged. Performing the operations
//! is left to the caller, which feeds each outcome back into the state
//! machines here.

pub mod add;
pub mod addr;
pub mod attach;
pub mod bridge;
pub mod chain;
pub mod config;
pub mod container;
pub mod error;
pub mod flannel;
pub mod gateway;
pub mod host;
pub mod host_local;
pub mod invoke;
pub mod ipam_static;
pub mod json;
pub mod mac;
pub mod masq;
pub mod netns;
pub mod range;
pub mod range_set;
pub mod reconcile;
pub mod skel;
pub mod store;
pub mod sysctl;
pub mod text;
pub mod types;
pub mod veth;
