//! Decisions the platform takes on its own.
use vstd::prelude::*;

verus! {

/// The kind of a decision of the platform.
#[derive(Debug, Clone, Copy, PartialEq, Eq)]
pub enum PlatformDecisionType {
    /// The tenant needs a larger plan.
    UpsellOpportunity,
    /// Resources or rate limits are adjusted.
    SystemOptimization,
    /// The tenant is at risk of leaving.
    RetentionCampaign,
    /// A webhook or an installed app is being repaired.
    IntegrationRecovery,
    /// A known fault is corrected.
    SelfHeal,
}

/// A decision of the platform about a tenant.
#[derive(Debug, PartialEq, Eq)]
pub struct PlatformDecision {
    pub id: String,
    pub tenant_id: String,
    pub decision_type: PlatformDecisionType,
    pub razon: String,
    pub accion_propuesta: String,
    pub ejecutada: bool,
    pub fecha: String,
}

} // verus!
