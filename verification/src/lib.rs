//! Add-on composition and launch orchestration for a node's two
//! control-plane servers: the general-purpose RPC surface and the
//! privileged engine surface driven by a consensus-layer client.
//!
//! The launch itself is a strictly sequential multi-phase protocol with one
//! concurrent step (the dual server bind). The decision logic of every phase
//! lives here as a verified state machine; the embedding process performs the
//! outside work (building handlers, spawning tasks, binding listeners) and
//! feeds the outcomes back as events.

pub mod capability;
pub mod config;
pub mod engine;
pub mod errors;
pub mod feed;
pub mod handles;
pub mod hooks;
pub mod modules;
pub mod orchestrator;
pub mod registry;
