//! The health of the platform's components.
use vstd::prelude::*;

verus! {

/// The state of one component of the platform.
#[derive(Debug, PartialEq, Eq)]
pub struct SystemHealth {
    pub id: String,
    pub componente: String,
    pub status: String,
    pub latencia_ms: Option<i32>,
    pub actualizado_en: String,
}

} // verus!
