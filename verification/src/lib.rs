//! The core of a multi-tenant chat-bot gateway: the wire schema spoken with
//! plugins, the translation between native chat events and that schema, the
//! routing of plugin requests to the chat driver, and the bookkeeping of
//! sessions, bots and plugin connections.
//!
//! Everything here is synchronous and free of I/O. The surrounding program
//! owns sockets, timers and the chat driver; it feeds this library with plain
//! values and carries out the actions the library decides on.

pub mod api_handler;
pub mod bot;
pub mod error;
pub mod event;
pub mod handler;
pub mod idl;
pub mod msg;
pub mod native;
pub mod plugin;
pub mod util;
pub mod varint;
