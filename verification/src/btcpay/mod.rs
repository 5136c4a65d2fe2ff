//! BTCPay Server.

pub mod client;
pub mod config;
pub mod network;
pub mod webhook;
