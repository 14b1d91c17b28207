//! The database location.
use vstd::prelude::*;

use crate::texto::copiar;

verus! {

/// The database that is used when `DATABASE_URL` is not set.
pub open spec fn url_por_defecto() -> Seq<char> {
    "sqlite:inventario.db?mode=rwc"@
}

/// The database to connect to: `DATABASE_URL` where it is set (and
/// readable), else a local SQLite file created on demand.
pub fn url_base_datos(variable: Option<String>) -> (r: String)
    ensures
        variable matches Some(v) ==> r@ == v@,
        variable is None ==> r@ == url_por_defecto(),
{
    match variable {
        Some(v) => v,
        None => copiar("sqlite:inventario.db?mode=rwc"),
    }
}

} // verus!
