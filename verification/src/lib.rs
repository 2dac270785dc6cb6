//! Command listener for input-method conversion state: the one-byte message
//! protocol, the per-process channel name, the per-window conversion store,
//! the worker that serves the channel and the lifecycle that starts and
//! stops it when the module is loaded into and unloaded from its host.

pub mod channel;
pub mod error;
pub mod hook;
pub mod listener;
pub mod message;
pub mod platform;
pub mod store;
pub mod worker;
