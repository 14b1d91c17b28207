//! Stock movements: how an entry or an exit changes a product's stock.
use vstd::prelude::*;

use crate::errors::AppError;
use crate::models::NuevoMovimiento;
use crate::texto::{copiar, mismo_texto};

verus! {

/// The change of stock of a movement: an entry (`"entrada"`) adds the
/// quantity, any other movement takes it away.
pub open spec fn ajuste_de(tipo: Seq<char>, cantidad: int) -> int {
    if tipo == "entrada"@ {
        cantidad
    } else {
        -cantidad
    }
}

/// The stock after a movement, or `None` where it would fall below zero.
pub open spec fn stock_tras(stock_actual: int, tipo: Seq<char>, cantidad: int) -> Option<int> {
    let nuevo = stock_actual + ajuste_de(tipo, cantidad);
    if nuevo < 0 {
        None
    } else {
        Some(nuevo)
    }
}

/// The movement can be computed in 64-bit integers.
pub open spec fn movimiento_representable(stock_actual: i64, tipo: Seq<char>, cantidad: i64) -> bool {
    &&& (tipo != "entrada"@ ==> cantidad != i64::MIN)
    &&& i64::MIN <= stock_actual + ajuste_de(tipo, cantidad as int) <= i64::MAX
}

/// The new stock of a product after a movement of type `tipo`; refused with
/// "Stock insuficiente" where it would be negative.
pub fn nuevo_stock(stock_actual: i64, tipo: &str, cantidad: i64) -> (r: Result<i64, AppError>)
    requires
        movimiento_representable(stock_actual, tipo@, cantidad),
    ensures
        stock_tras(stock_actual as int, tipo@, cantidad as int) matches Some(n) ==> r == Ok::<
            i64,
            AppError,
        >(n as i64),
        stock_tras(stock_actual as int, tipo@, cantidad as int) is None ==> (r matches Err(
            AppError::ValidationError(m),
        ) && m@ == "Stock insuficiente"@),
        r matches Ok(n) ==> n >= 0,
{
    let ajuste: i64 = if mismo_texto(tipo, "entrada") {
        cantidad
    } else {
        -cantidad
    };
    let nuevo: i64 = stock_actual + ajuste;
    if nuevo < 0 {
        return Err(AppError::ValidationError(copiar("Stock insuficiente")));
    }
    Ok(nuevo)
}

/// The decision of a movement on a product: a product that does not exist
/// is "Producto no encontrado"; otherwise the new stock, as `nuevo_stock`.
pub fn registrar_movimiento(stock_producto: Option<i64>, tipo: &str, movimiento: &NuevoMovimiento) -> (r:
    Result<i64, AppError>)
    requires
        stock_producto matches Some(s) ==> movimiento_representable(s, tipo@, movimiento.cantidad),
    ensures
        stock_producto is None ==> (r matches Err(AppError::NotFound(m)) && m@
            == "Producto no encontrado"@),
        stock_producto matches Some(s) ==> (match stock_tras(
            s as int,
            tipo@,
            movimiento.cantidad as int,
        ) {
            Some(n) => r == Ok::<i64, AppError>(n as i64),
            None => r matches Err(AppError::ValidationError(m)) && m@ == "Stock insuficiente"@,
        }),
{
    match stock_producto {
        None => Err(AppError::NotFound(copiar("Producto no encontrado"))),
        Some(s) => nuevo_stock(s, tipo, movimiento.cantidad),
    }
}

/// An entry followed by an exit of the same quantity leaves the stock where
/// it was.
pub proof fn ley_entrada_y_salida(stock: int, cantidad: int)
    requires
        stock >= 0,
        stock_tras(stock, "entrada"@, cantidad) is Some,
    ensures
        stock_tras(stock_tras(stock, "entrada"@, cantidad)->0, "salida"@, cantidad) == Some(stock),
{
    reveal_strlit("entrada");
    reveal_strlit("salida");
    assert("salida"@.len() == 6);
    assert("entrada"@.len() == 7);
}

/// An exit of a non-negative quantity is accepted exactly when the stock
/// covers it, and then takes exactly that quantity away.
pub proof fn ley_salida_cubierta(stock: int, cantidad: int)
    requires
        cantidad >= 0,
    ensures
        stock_tras(stock, "salida"@, cantidad) is Some <==> cantidad <= stock,
        stock_tras(stock, "salida"@, cantidad) matches Some(n) ==> n == stock - cantidad,
{
    reveal_strlit("entrada");
    reveal_strlit("salida");
    assert("salida"@.len() == 6);
    assert("entrada"@.len() == 7);
}

/// The sum of the changes of stock of a list of movements, each a type and a
/// quantity.
pub open spec fn suma_ajustes(movs: Seq<(Seq<char>, int)>) -> int
    decreases movs.len(),
{
    if movs.len() == 0 {
        0
    } else {
        suma_ajustes(movs.drop_last()) + ajuste_de(movs.last().0, movs.last().1)
    }
}

/// The stock after a list of movements, registered one after the other from
/// `stock`; `None` where one of them is refused.
pub open spec fn stock_tras_movimientos(stock: int, movs: Seq<(Seq<char>, int)>) -> Option<int>
    decreases movs.len(),
{
    if movs.len() == 0 {
        Some(stock)
    } else {
        match stock_tras_movimientos(stock, movs.drop_last()) {
            Some(s) => stock_tras(s, movs.last().0, movs.last().1),
            None => None,
        }
    }
}

/// The kardex: registering a list of movements from a stock succeeds exactly
/// when no prefix of the list takes the stock below zero, and then the stock
/// is the starting stock plus the signed quantities, never negative.
pub proof fn ley_kardex(stock: int, movs: Seq<(Seq<char>, int)>)
    requires
        stock >= 0,
    ensures
        stock_tras_movimientos(stock, movs) is Some <==> (forall|i: int|
            0 <= i <= movs.len() ==> stock + #[trigger] suma_ajustes(movs.take(i)) >= 0),
        stock_tras_movimientos(stock, movs) matches Some(n) ==> n == stock + suma_ajustes(movs)
            && n >= 0,
    decreases movs.len(),
{
    if movs.len() > 0 {
        let previos = movs.drop_last();
        ley_kardex(stock, previos);
        assert(movs.take(movs.len() as int) =~= movs);
        assert forall|i: int| 0 <= i <= previos.len() implies #[trigger] movs.take(i)
            == previos.take(i) by {
            assert(movs.take(i) =~= previos.take(i));
        }
        if stock_tras_movimientos(stock, movs) is Some {
            assert forall|i: int| 0 <= i <= movs.len() implies stock + #[trigger] suma_ajustes(
                movs.take(i),
            ) >= 0 by {
                if i < movs.len() {
                    assert(movs.take(i) == previos.take(i));
                }
            }
        } else if stock_tras_movimientos(stock, previos) is Some {
            assert(stock + suma_ajustes(movs.take(movs.len() as int)) < 0);
        } else {
            let j = choose|j: int|
                0 <= j <= previos.len() && !(stock + #[trigger] suma_ajustes(previos.take(j)) >= 0);
            assert(movs.take(j) == previos.take(j));
            assert(stock + suma_ajustes(movs.take(j)) < 0);
        }
    } else {
        assert(movs.take(0) =~= movs);
    }
}

/// A movement keeps the kardex of a product: where the stock was the
/// starting stock plus the signed quantities of its movements, and not
/// negative, it still is after `registrar_movimiento`, whether the movement
/// is accepted (and added to the list) or refused (and nothing changes).
pub proof fn ley_movimiento_conserva_kardex(
    inicial: int,
    stock: int,
    movs: Seq<(Seq<char>, int)>,
    tipo: Seq<char>,
    cantidad: int,
)
    requires
        stock == inicial + suma_ajustes(movs),
        stock >= 0,
    ensures
        match stock_tras(stock, tipo, cantidad) {
            Some(n) => n == inicial + suma_ajustes(movs.push((tipo, cantidad))) && n >= 0,
            None => stock == inicial + suma_ajustes(movs),
        },
{
    assert(movs.push((tipo, cantidad)).drop_last() =~= movs);
}

/// An entry adds its quantity to the stock and any other movement takes it
/// away; a movement is refused exactly when the stock would fall below zero,
/// and otherwise the stock becomes that sum.
pub proof fn ley_ajuste_de_movimiento(stock: int, tipo: Seq<char>, cantidad: int)
    ensures
        tipo == "entrada"@ ==> ajuste_de(tipo, cantidad) == cantidad,
        tipo != "entrada"@ ==> ajuste_de(tipo, cantidad) == -cantidad,
        stock_tras(stock, tipo, cantidad) is None <==> stock + ajuste_de(tipo, cantidad) < 0,
        stock_tras(stock, tipo, cantidad) matches Some(n) ==> n == stock + ajuste_de(tipo, cantidad),
{
}

} // verus!
