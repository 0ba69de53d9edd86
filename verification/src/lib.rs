//! Coordination core of a chat client: the command/event bridge between a
//! synchronous foreground and an asynchronous backend, and the lifecycle
//! manager for per-conversation event streams.
//!
//! The library owns the logic: command queuing with exactly-once
//! request/response slots, FIFO event delivery, the stream-handle map,
//! the dispatcher's per-command decisions, and the state reducer that
//! folds replies and events into the application snapshot. The
//! surrounding process (runtime, windowing, file system) drives these
//! functions from outside.

pub mod bridge;
pub mod bus;
pub mod chats;
pub mod commands;
pub mod config;
pub mod dispatch;
pub mod error;
pub mod events;
pub mod identity;
pub mod ids;
pub mod state;
pub mod storage;
pub mod streams;
pub mod ui;
