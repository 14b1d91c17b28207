//! The filters of the product list.
use vstd::prelude::*;

verus! {

/// Which products to list: all, or only those at or below a stock level.
#[derive(Debug, PartialEq, Eq)]
pub struct FiltrosProducto {
    pub solo_stock_bajo: Option<bool>,
    pub stock_minimo: Option<i64>,
}

} // verus!
