//! Invoices: finding the sale and naming the document.
use vstd::prelude::*;

use crate::errors::AppError;
use crate::texto::{concatenar, copiar, mismo_texto};

verus! {

/// The position of the first sale with id `id` among the ids of the sales;
/// "Venta no encontrada" where there is none.
pub fn buscar_venta(ids: &Vec<String>, id: &str) -> (r: Result<usize, AppError>)
    ensures
        r matches Ok(i) ==> i < ids@.len() && ids@[i as int]@ == id@ && forall|j: int|
            0 <= j < i ==> #[trigger] ids@[j]@ != id@,
        r is Err <==> forall|j: int| 0 <= j < ids@.len() ==> #[trigger] ids@[j]@ != id@,
        r is Err ==> (r matches Err(AppError::NotFound(m)) && m@ == "Venta no encontrada"@),
{
    let mut i: usize = 0;
    while i < ids.len()
        invariant
            i <= ids@.len(),
            forall|j: int| 0 <= j < i ==> #[trigger] ids@[j]@ != id@,
        decreases ids.len() - i,
    {
        if mismo_texto(ids[i].as_str(), id) {
            return Ok(i);
        }
        i = i + 1;
    }
    Err(AppError::NotFound(copiar("Venta no encontrada")))
}

/// The name printed for a product: its own, or "Producto Desconocido" where
/// it no longer exists.
pub fn nombre_producto(nombre: Option<String>) -> (r: String)
    ensures
        nombre matches Some(n) ==> r@ == n@,
        nombre is None ==> r@ == "Producto Desconocido"@,
{
    match nombre {
        Some(n) => n,
        None => copiar("Producto Desconocido"),
    }
}

/// What `str::to_uppercase` makes of a text: its Unicode upper case.
pub uninterp spec fn mayusculas(s: Seq<char>) -> Seq<char>;

/// `str::to_uppercase`.
/// Trusted: the result is the named upper case of the text; the Unicode case
/// mapping itself is not stated.
#[verifier::external_body]
fn a_mayusculas(s: &str) -> (r: String)
    ensures
        r@ == mayusculas(s@),
{
    s.to_uppercase()
}

/// The heading of the invoice: its number, the sale's id in upper case.
pub fn encabezado_factura(id: &str) -> (r: String)
    ensures
        r@ == "FACTURA DE VENTA N°: "@ + mayusculas(id@),
{
    let m = a_mayusculas(id);
    concatenar("FACTURA DE VENTA N°: ", m.as_str())
}

/// The title of the invoice document.
pub fn titulo_factura(id: &str) -> (r: String)
    ensures
        r@ == "Factura - "@ + id@,
{
    concatenar("Factura - ", id)
}

/// The `Content-Disposition` of the invoice: an attachment named after the sale.
pub fn disposicion_factura(id: &str) -> (r: String)
    ensures
        r@ == "attachment; filename=\"factura_"@ + id@ + ".pdf\""@,
{
    let a = concatenar("attachment; filename=\"factura_", id);
    concatenar(a.as_str(), ".pdf\"")
}

} // verus!
