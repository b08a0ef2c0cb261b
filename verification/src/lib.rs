//! A line-based broadcast relay and a small key-value store, as the rules
//! that their servers follow.
//!
//! The relay: clients connect, give a display name, and every line that one
//! sends is handed to all the others; comings and goings are announced the
//! same way. `session` decides what each event on a connection calls for,
//! `registry` holds the delivery queues and fans lines out, `relay` carries
//! an action out on the registry, and `hub` states what holds of the relay as
//! a whole. `store` reads, carries out and answers the store's requests.
//!
//! Sockets, framing and waiting are the caller's: the library is handed
//! lines and events and hands back lines and actions.

pub mod acceptor;
pub mod hub;
pub mod line;
pub mod queue;
pub mod registry;
pub mod relay;
pub mod session;
pub mod split;
pub mod store;
