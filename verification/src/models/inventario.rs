//! The filters of the stock movement list.
use vstd::prelude::*;

verus! {

/// Which stock movements to list.
#[derive(Debug, PartialEq, Eq)]
pub struct FiltrosMovimiento {
    pub producto_id: Option<String>,
    pub tipo: Option<String>,
    pub fecha_desde: Option<String>,
    pub fecha_hasta: Option<String>,
}

} // verus!
