//! The data model: users, products, sales and the records of every module.
//! The first group of types is the flat model of users, stock and sales; the submodules hold
//! the later, per-module model.
use vstd::prelude::*;

pub mod ai;
pub mod api_key;
pub mod autonomous;
pub mod dashboard;
pub mod integration;
pub mod inventario;
pub mod metrics;
pub mod plan;
pub mod policy;
pub mod producto;
pub mod responses;
pub mod superadmin;
pub mod tenant;
pub mod usuario;
pub mod venta;
pub mod webhook;

verus! {

/// A user account as stored.
#[derive(Debug, PartialEq, Eq)]
pub struct Usuario {
    pub id: String,
    pub username: String,
    pub password_hash: String,
    pub rol: String,
    pub creado_en: String,
}

/// The data to create a user account.
#[derive(Debug, PartialEq, Eq)]
pub struct NuevoUsuario {
    pub username: String,
    pub password: String,
}

/// A login attempt.
#[derive(Debug, PartialEq, Eq)]
pub struct LoginRequest {
    pub username: String,
    pub password: String,
}

/// The answer to a successful login.
#[derive(Debug, PartialEq, Eq)]
pub struct AuthResponse {
    pub token: String,
    pub usuario: UsuarioPublico,
}

/// What may be shown of a user account.
#[derive(Debug, PartialEq, Eq)]
pub struct UsuarioPublico {
    pub id: String,
    pub username: String,
    pub rol: String,
}

/// A stock movement as recorded: an entry (`"entrada"`) or an exit
/// (`"salida"`) of a product, by whom and when.
#[derive(Debug, PartialEq, Eq)]
pub struct MovimientoInventario {
    pub id: String,
    pub producto_id: String,
    pub tipo: String,
    pub cantidad: i64,
    pub motivo: Option<String>,
    pub usuario_id: Option<String>,
    pub fecha: String,
}

/// A stock movement as requested.
#[derive(Debug, PartialEq, Eq)]
pub struct NuevoMovimiento {
    pub producto_id: String,
    pub cantidad: i64,
    pub motivo: Option<String>,
}

/// One line of a sale as requested: a product and how many units.
#[derive(Debug, PartialEq, Eq)]
pub struct LineaVenta {
    pub producto_id: String,
    pub cantidad: i64,
}

/// A sale as requested: its lines.
#[derive(Debug, PartialEq, Eq)]
pub struct CrearVentaRequest {
    pub lineas: Vec<LineaVenta>,
}

} // verus!
