//! The decisions behind each endpoint: what a request is checked against,
//! what it computes and what it answers, apart from the storage and the HTTP
//! plumbing around it.
pub mod api_keys;
pub mod api_v2;
pub mod auth_handlers;
pub mod billing;
pub mod facturas;
pub mod inventario;
pub mod reportes;
pub mod usuarios;
pub mod webhooks;
