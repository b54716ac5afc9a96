//! Cross-process IPC transport for a crash-monitoring helper.
//!
//! The library synthesizes pairs of already-connected endpoints
//! ([`ipc_channel::IPCChannel`], [`ipc_channel::IPCClientChannel`]), wraps
//! kernel send/receive capabilities in move-only owners ([`platform`]), and
//! multiplexes many live endpoints under one blocking wait
//! ([`ipc_queue::IPCQueue`]), reporting message arrival and peer disconnection
//! as discrete events.

pub mod errors;
pub mod messages;
mod sys;
pub mod platform;
pub mod connector;
pub mod listener;
pub mod ipc_channel;
pub mod ipc_queue;
pub mod transform;
pub mod helpers;
