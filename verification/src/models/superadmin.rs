//! What the platform owner sees of each tenant.
use vstd::prelude::*;

verus! {

/// A tenant, as listed to the platform owner.
#[derive(Debug, PartialEq, Eq)]
pub struct TenantInfo {
    pub id: String,
    pub nombre: String,
    pub plan_id: String,
    pub status: String,
    pub fecha_registro: String,
}

} // verus!
