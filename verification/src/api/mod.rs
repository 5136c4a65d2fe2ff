//! The rules behind the service's endpoints.

pub mod access;
pub mod admin;
pub mod admin_ui;
pub mod api_keys;
pub mod auth;
pub mod btcpay_authorize;
pub mod buy_page;
pub mod buy_template;
pub mod cascade;
pub mod checkout;
pub mod community;
pub mod currency;
pub mod discount_codes;
pub mod health_summary;
pub mod issuer_key;
pub mod machines;
pub mod merchant_profiles;
pub mod openapi;
pub mod payment_provider;
pub mod policies;
pub mod purchase;
pub mod rates_admin;
pub mod records;
pub mod recover;
pub mod redeem;
pub mod self_license;
pub mod service_info;
pub mod session_layer;
pub mod subscriptions;
pub mod thank_you;
pub mod tier;
pub mod upgrade;
pub mod validate;
pub mod webhook;
pub mod webhook_deliveries;
pub mod webhook_endpoints;
pub mod zaprite_authorize;
