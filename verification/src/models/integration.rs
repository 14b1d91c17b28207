//! The marketplace of apps and the apps a tenant installed.
use vstd::prelude::*;

verus! {

/// An app of the marketplace.
#[derive(Debug, PartialEq, Eq)]
pub struct IntegrationApp {
    pub id: String,
    pub nombre: String,
    pub descripcion: String,
    pub logo_url: Option<String>,
    pub eventos_requeridos: String,
    pub config_schema: Option<String>,
    pub premium: bool,
    pub creado_en: String,
}

/// An app installed by a tenant.
#[derive(Debug, PartialEq, Eq)]
pub struct TenantIntegration {
    pub id: String,
    pub tenant_id: String,
    pub app_id: String,
    pub config_json: String,
    pub status: String,
    pub creado_en: String,
}

/// An app of the marketplace, with whether the tenant installed it.
#[derive(Debug, PartialEq, Eq)]
pub struct IntegrationAppFull {
    pub app: IntegrationApp,
    pub instalada: bool,
    pub status: Option<String>,
}

} // verus!
