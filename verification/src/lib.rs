//! Peer-to-peer clipboard synchronisation for machines on one local network.
//!
//! The crate holds the decisions of a node: how it signs and checks clipboard
//! updates, which peers it trusts, how it answers discovery datagrams and what
//! it does with an inbound update. Sockets, HTTP, the database file and the
//! operating system's clipboard belong to the program around it, which hands
//! this library plain values and acts on the plain values it gets back.

pub mod connect;
pub mod share;
pub mod utils;
