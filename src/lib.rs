//! Extension loading and provider brokering for the Ripple gateway.
//!
//! The library holds the gateway's decisions as verified code: how extension
//! ids are read, how loaded channels are sorted into device and deferred
//! batches, how extension readiness is tracked, and how the provider broker
//! correlates requests with the responses of the app that provides a
//! capability. Locks, tasks, sockets and dynamic loading live with the caller.

pub mod error;
pub mod table;
pub mod text;

pub mod contract;
pub mod extn_id;
pub mod manifest;

pub mod device;
pub mod gateway;
pub mod payload;
pub mod player;
pub mod provider;

pub mod bootstrap;
pub mod client;
pub mod extn_state;

pub mod context;
pub mod handlers;
pub mod provider_broker;

pub mod field_checks;
