//! Peer scan and the trust handshake.

pub mod controllers;
pub mod routes;
