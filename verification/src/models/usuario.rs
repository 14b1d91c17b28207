//! User accounts.
use vstd::prelude::*;

verus! {

/// A user account as stored; the password only as its bcrypt hash.
#[derive(Debug, PartialEq, Eq)]
pub struct Usuario {
    pub id: String,
    pub username: String,
    pub password_hash: String,
    pub rol: String,
    pub creado_en: String,
}

/// The data to create a user account.
#[derive(Debug, PartialEq, Eq)]
pub struct NuevoUsuario {
    pub username: String,
    pub password: String,
}

/// A login attempt.
#[derive(Debug, PartialEq, Eq)]
pub struct LoginRequest {
    pub username: String,
    pub password: String,
}

/// The answer to a successful login.
#[derive(Debug, PartialEq, Eq)]
pub struct AuthResponse {
    pub token: String,
    pub usuario: UsuarioPublico,
}

/// What may be shown of a user account.
#[derive(Debug, PartialEq, Eq)]
pub struct UsuarioPublico {
    pub id: String,
    pub username: String,
    pub rol: String,
}

/// A new role for a user.
#[derive(Debug, PartialEq, Eq)]
pub struct ActualizarRol {
    pub rol: String,
}

} // verus!
