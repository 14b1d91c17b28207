//! Outbound webhooks: endpoints and their delivery log.
use vstd::prelude::*;

verus! {

/// A URL that receives the tenant's events, signed with `secret`.
#[derive(Debug, PartialEq, Eq)]
pub struct WebhookEndpoint {
    pub id: String,
    pub tenant_id: String,
    pub url: String,
    pub secret: String,
    pub event_types: String,
    pub active: bool,
    pub creado_en: String,
}

/// The data to register an endpoint: its URL and the events it wants.
#[derive(Debug, PartialEq, Eq)]
pub struct CrearWebhookDto {
    pub url: String,
    pub event_types: Vec<String>,
}

/// One delivery of an event to an endpoint.
#[derive(Debug, PartialEq, Eq)]
pub struct WebhookLog {
    pub id: String,
    pub endpoint_id: String,
    pub tenant_id: String,
    pub event_type: String,
    pub status_code: Option<i32>,
    pub request_body: Option<String>,
    pub response_body: Option<String>,
    pub intentos: i32,
    pub fecha: String,
}

} // verus!
