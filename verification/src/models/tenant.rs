//! Tenants: the businesses that use the platform.
use vstd::prelude::*;

verus! {

/// A business using the platform.
#[derive(Debug, PartialEq, Eq)]
pub struct Tenant {
    pub id: String,
    pub nombre: String,
    pub plan: String,
    pub creado_en: String,
}

/// The data to create a tenant.
#[derive(Debug, PartialEq, Eq)]
pub struct CrearTenantDto {
    pub nombre: String,
}

} // verus!
