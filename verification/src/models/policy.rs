//! Business policies: how risky an action is and what it needs.
use vstd::prelude::*;

verus! {

/// How much harm an action can do.
#[derive(Debug, Clone, Copy, PartialEq, Eq)]
pub enum RiskLevel {
    /// Reading data, simple queries.
    Low,
    /// Creating records, small updates.
    Medium,
    /// Bulk actions, deletions, financial changes.
    High,
    /// Plan changes, superadmin access, wiping data.
    Critical,
}

/// What an action needs before it may run.
#[derive(Debug, PartialEq, Eq)]
pub struct BusinessPolicy {
    pub action_id: String,
    pub min_plan: String,
    pub risk: RiskLevel,
    pub requires_confirmation: bool,
}

} // verus!
