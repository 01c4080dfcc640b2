//! Inbound clipboard updates.

pub mod controllers;
pub mod routes;
