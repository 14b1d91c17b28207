//! The parts of the dashboard without amounts of money.
use vstd::prelude::*;

verus! {

/// A product among the best sellers, with the units sold.
#[derive(Debug, PartialEq, Eq)]
pub struct TopProducto {
    pub nombre: String,
    pub cantidad: i64,
}

/// A recent event: a sale (`"VENTA"`) or a stock movement (`"MOVIMIENTO"`).
#[derive(Debug, PartialEq, Eq)]
pub struct ActividadReciente {
    pub tipo: String,
    pub descripcion: String,
    pub fecha: String,
}

} // verus!
