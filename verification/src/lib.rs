//! Notification routing and delivery for a chat service.
//!
//! The crate holds the decisions of three cooperating parts: the bus of
//! per-chat topics, the router that owns the directory of online users and
//! their subscriptions, and the actor that serves one connection. Everything
//! that waits (the socket, the store, the queues between tasks) is left to
//! the program around the crate, which performs the steps the crate returns
//! and hands the outcomes back.

pub mod identity;
pub mod model;
pub mod channels;
pub mod chat_bus;
pub mod router;
pub mod store;
pub mod connection;
pub mod laws;
