//! A licensing service that sells software for bitcoin: signed license keys,
//! and the rules by which they are sold, issued, validated and withdrawn.

pub mod analytics;
pub mod api;
pub mod btcpay;
pub mod clock;
pub mod codec;
pub mod config;
pub mod crypto;
pub mod error;
pub mod html;
pub mod laws;
pub mod licensing;
pub mod models;
pub mod text;
