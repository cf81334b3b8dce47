//! Message transport and marshalling core for a replicated-log SQL store.
//!
//! Every node of the cluster runs a local consensus engine; this crate is the
//! layer that carries the engine's messages between nodes. It defines the wire
//! vocabulary for every consensus and leader-election message, converts
//! between the in-memory message algebra and flat wire records, and manages
//! the outbound connection cache, so that the surrounding process only has to
//! perform the network calls themselves.

pub mod messages;
pub mod wire;
pub mod codec;
pub mod pool;
pub mod directory;
pub mod service;
