//! Start-up logic of a desktop application that attaches a log, a store and a
//! vault plug-in to its host framework and then enters the event loop.
//!
//! The crate decides; the embedding program acts. It holds the order in which
//! the plug-ins are attached, the state machine that leads from the first
//! registration to the running event loop or to an abort, and the derivation of
//! the vault key from a password.

pub mod history;
pub mod plugin;
pub mod startup;
pub mod vault_key;
