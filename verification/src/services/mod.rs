//! Partner services: accounts that hold coins of their own and pay them out
//! to players.

pub mod config;
pub mod handlers;
pub mod routes;
