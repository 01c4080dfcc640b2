//! Identity and signing, the peer registry, discovery and shared helpers.

pub mod communication;
pub mod controllers;
pub mod db;
pub mod encryption;
pub mod error;
pub mod general;
