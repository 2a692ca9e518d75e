//! Telemetry client core: identity and session state, event composition,
//! feature-flag configuration caching, event batching, and the decisions of
//! the transport layer, each stated as a contract and proved.
//!
//! The asynchronous plumbing (channels, timers, HTTP, files) drives these
//! pieces from the outside; every decision it takes is made here.

pub mod checkin;
mod clock;
pub mod collator;
pub mod compression;
pub mod configuration_proxy;
pub mod correlation;
pub mod event;
mod identity;
pub mod json;
pub mod recorder;
pub mod storage;
mod string_map;
pub mod submitter;
pub mod transport;

pub use identity::{AnonymousDistinctId, DeviceId, DistinctId};
pub use string_map::{Entry, StringMap};
