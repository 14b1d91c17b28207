//! The verified core of an inventory, sales and billing platform for many
//! businesses (tenants): its data model, the checks and decisions of each
//! endpoint, authentication, API keys, webhooks, subscriptions, stock
//! movements and report queries. Storage, HTTP, PDF rendering and everything
//! that works on money amounts live in the application around it.

pub mod aleatorio;
pub mod auth;
pub mod cripto;
pub mod db;
pub mod errors;
pub mod handlers;
pub mod models;
pub mod texto;
