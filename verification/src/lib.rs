//! Verified core of a voice-chat control-surface plugin.
//!
//! The library models the plugin's connection lifecycle and event routing as
//! explicit state machines: configuration handling, the connection builder,
//! the single-flight reconnect scheduler, the inbound event router, the OAuth
//! token-exchange response parsing, and the voice toggle actions. All I/O
//! (the local IPC channel, the HTTP token endpoint, the control-surface host)
//! is performed by a thin unverified shell that drives these transitions.

pub mod actions;
pub mod builder;
pub mod lifecycle;
pub mod oauth;
pub mod rpc_events;
pub mod settings;
