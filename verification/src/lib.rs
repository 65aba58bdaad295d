//! Control core of a network-attached FM radio appliance.
//!
//! The library resolves station names against a fixed directory, bounds and
//! decodes untrusted request payloads, and serializes every hardware mutation
//! (indicator light and tuner) behind an exclusive-access store, so that no
//! two command sequences ever interleave on the device bus.

pub mod dispatcher;
pub mod http;
pub mod hw;
pub mod payload;
pub mod sim;
pub mod station;
pub mod store;
