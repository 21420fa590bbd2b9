//! Verified core of a clicker game backend: accounts earn coins by clicking
//! and by automatic income, buy upgrades, transfer coins, run partner
//! services and play timed raffles.
pub mod decimal;
pub mod error;
pub mod config;
pub mod ws;
pub mod helpers;
pub mod services;
