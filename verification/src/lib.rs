//! A minimal physics kernel: a registry of falling point masses addressed by
//! opaque handles, a fixed-step integrator, and a last-error slot.
//!
//! All shared state is explicit. A [`registry::Registry`] and an
//! [`error_channel::LastError`] are passed by reference into every operation,
//! so the embedding decides where they live and how access is serialized.
//! Real numbers cross the interface as binary64 bit patterns held in `u64`.

pub mod boundary;
pub mod error_channel;
pub mod integrator;
pub mod registry;
pub mod scalar;
pub mod status;
