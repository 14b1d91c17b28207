//! Sales as requested, and the period of a sales report.
use vstd::prelude::*;

verus! {

/// One line of a sale as requested: a product and how many units.
#[derive(Debug, PartialEq, Eq)]
pub struct LineaVenta {
    pub producto_id: String,
    pub cantidad: i64,
}

/// A sale as requested: its lines.
#[derive(Debug, PartialEq, Eq)]
pub struct CrearVentaRequest {
    pub lineas: Vec<LineaVenta>,
}

/// The month of a sales report; what is missing is taken from today.
#[derive(Debug, PartialEq, Eq)]
pub struct FiltrosVentas {
    pub mes: Option<u32>,
    pub anio: Option<i32>,
}

} // verus!
