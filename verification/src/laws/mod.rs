//! What holds of the service as a whole, in terms of what goes in and what comes
//! out.

pub mod access;
pub mod catalog;
pub mod checkout;
pub mod codes;
pub mod endpoints;
pub mod holders;
pub mod keys;
pub mod machines;
pub mod notices;
pub mod operator;
pub mod pages;
pub mod payments;
pub mod purchases;
pub mod redemptions;
pub mod service;
pub mod texts;
pub mod validation;
pub mod wire;
