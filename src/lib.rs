//! Credential handoff between an unprivileged desktop client and a logon
//! plugin: wire format, credential store, listener and credential state
//! machines, and the module's lifetime bookkeeping.
pub mod wide;
pub mod store;
pub mod lifetime;
pub mod credential;
pub mod listener;
pub mod client;
