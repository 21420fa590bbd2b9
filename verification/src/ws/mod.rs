//! The socket protocol and the timed raffle played over it.

pub mod config;
pub mod handlers;
pub mod main;
