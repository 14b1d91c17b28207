//! Reports: the product query and the month of the sales report.
use vstd::prelude::*;

use crate::texto::{
    caracteres,
    concatenar,
    decimal,
    decimal_relleno,
    entero_a_texto,
    entero_relleno,
    texto_de,
};

verus! {

/// Which products the inventory report lists.
#[derive(Debug, PartialEq, Eq)]
pub struct FiltrosProducto {
    pub solo_stock_bajo: Option<bool>,
    pub stock_minimo: Option<i64>,
}

/// The month of the sales report.
#[derive(Debug, PartialEq, Eq)]
pub struct FiltrosVentas {
    pub mes: Option<u32>,
    pub anio: Option<i32>,
}

/// The stock level at or below which a product counts as low when none is given.
pub const STOCK_MINIMO_POR_DEFECTO: i64 = 5;

/// The query of the inventory report: all products by name, or only those at
/// or below the stock level asked for (5 by default) when only low stock is
/// asked for.
pub open spec fn consulta_productos_spec(solo_stock_bajo: Option<bool>, stock_minimo: Option<i64>) -> Seq<char> {
    let filtro = if solo_stock_bajo == Some(true) {
        " AND stock_actual <= "@ + decimal(
            match stock_minimo {
                Some(m) => m as int,
                None => STOCK_MINIMO_POR_DEFECTO as int,
            },
        )
    } else {
        Seq::<char>::empty()
    };
    "SELECT * FROM productos WHERE 1=1"@ + filtro + " ORDER BY nombre"@
}

/// Builds the query of the inventory report.
pub fn consulta_reporte_productos(filtros: &FiltrosProducto) -> (r: String)
    ensures
        r@ == consulta_productos_spec(filtros.solo_stock_bajo, filtros.stock_minimo),
        filtros.solo_stock_bajo == Some(true) ==> (filtros.stock_minimo matches Some(m) ==> r@
            == "SELECT * FROM productos WHERE 1=1"@ + " AND stock_actual <= "@ + decimal(m as int)
            + " ORDER BY nombre"@),
        filtros.solo_stock_bajo == Some(true) && filtros.stock_minimo is None ==> r@
            == "SELECT * FROM productos WHERE 1=1"@ + " AND stock_actual <= "@ + decimal(5)
            + " ORDER BY nombre"@,
        filtros.solo_stock_bajo != Some(true) ==> r@ == "SELECT * FROM productos WHERE 1=1"@
            + " ORDER BY nombre"@,
{
    let mut q = String::new();
    q.append("SELECT * FROM productos WHERE 1=1");
    let solo_bajo = match filtros.solo_stock_bajo {
        Some(b) => b,
        None => false,
    };
    if solo_bajo {
        let minimo = match filtros.stock_minimo {
            Some(m) => m,
            None => STOCK_MINIMO_POR_DEFECTO,
        };
        let n = entero_a_texto(minimo);
        q.append(" AND stock_actual <= ");
        q.append(n.as_str());
    } else {
        proof {
            assert(filtros.solo_stock_bajo != Some(true));
        }
    }
    q.append(" ORDER BY nombre");
    q
}

/// The month `"{:04}-{:02}"` of the sales report.
pub open spec fn periodo_spec(anio: int, mes: int) -> Seq<char> {
    decimal_relleno(anio, 4) + "-"@ + decimal_relleno(mes, 2)
}

/// The month of the sales report, and the pattern that matches the dates in
/// it: the year and the month asked for, each defaulting to today's.
pub fn periodo_reporte_ventas(filtros: &FiltrosVentas, anio_actual: i32, mes_actual: u32) -> (r: (
    String,
    String,
))
    ensures
        r.0@ == periodo_spec(
            match filtros.anio {
                Some(a) => a as int,
                None => anio_actual as int,
            },
            match filtros.mes {
                Some(m) => m as int,
                None => mes_actual as int,
            },
        ),
        r.1@ == r.0@ + "%"@,
{
    let anio: i32 = match filtros.anio {
        Some(a) => a,
        None => anio_actual,
    };
    let mes: u32 = match filtros.mes {
        Some(m) => m,
        None => mes_actual,
    };
    let a = entero_relleno(anio as i64, 4);
    let m = entero_relleno(mes as i64, 2);
    let mut periodo = a;
    periodo.append("-");
    periodo.append(m.as_str());
    let patron = concatenar(periodo.as_str(), "%");
    (periodo, patron)
}

/// The first eight characters of a sale's id (all of it if shorter), as
/// printed in the sales report.
pub fn id_corto(id: &str) -> (r: String)
    ensures
        id@.len() >= 8 ==> r@ == id@.take(8),
        id@.len() < 8 ==> r@ == id@,
{
    let c = caracteres(id);
    if c.len() < 8 {
        return texto_de(c.as_slice());
    }
    let mut v: Vec<char> = Vec::new();
    let mut i: usize = 0;
    while i < 8
        invariant
            i <= 8 <= c@.len(),
            c@ == id@,
            v@ == c@.take(i as int),
        decreases 8 - i,
    {
        v.push(c[i]);
        assert(c@.take(i + 1) =~= c@.take(i as int).push(c@[i as int]));
        i = i + 1;
    }
    texto_de(v.as_slice())
}

/// The low-stock report uses the stock level asked for, whatever it is: with
/// a level `m` the query keeps exactly the products at or below `m`; the
/// level 5 applies only when none is given; without the low-stock filter the
/// query lists every product.
pub proof fn ley_umbral_de_stock_bajo(m: i64, solo: Option<bool>)
    ensures
        consulta_productos_spec(Some(true), Some(m)) == "SELECT * FROM productos WHERE 1=1"@
            + " AND stock_actual <= "@ + decimal(m as int) + " ORDER BY nombre"@,
        consulta_productos_spec(Some(true), None) == "SELECT * FROM productos WHERE 1=1"@
            + " AND stock_actual <= "@ + decimal(5) + " ORDER BY nombre"@,
        solo != Some(true) ==> consulta_productos_spec(solo, Some(m)) == "SELECT * FROM productos WHERE 1=1"@
            + " ORDER BY nombre"@,
{
    assert(consulta_productos_spec(Some(true), Some(m)) =~= "SELECT * FROM productos WHERE 1=1"@
        + " AND stock_actual <= "@ + decimal(m as int) + " ORDER BY nombre"@);
    assert(consulta_productos_spec(Some(true), None) =~= "SELECT * FROM productos WHERE 1=1"@
        + " AND stock_actual <= "@ + decimal(5) + " ORDER BY nombre"@);
    if solo != Some(true) {
        assert(consulta_productos_spec(solo, Some(m)) =~= "SELECT * FROM productos WHERE 1=1"@
            + " ORDER BY nombre"@);
    }
}

} // verus!
