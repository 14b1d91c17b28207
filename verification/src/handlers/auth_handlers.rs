//! Sign-up of a business and login.
use vstd::prelude::*;

use crate::cripto::{bcrypt_verifica, verificar_bcrypt};
use crate::errors::AppError;
use crate::models::usuario::Usuario;
use crate::texto::copiar;

verus! {

/// The sign-up of a business with its first administrator.
#[derive(Debug, PartialEq, Eq)]
pub struct RegistroSaaSRequest {
    pub nombre_empresa: String,
    pub username_admin: String,
    pub password_admin: String,
}

/// The tenant created by a sign-up.
#[derive(Debug, PartialEq, Eq)]
pub struct RegistroSaaSResponse {
    pub tenant_id: String,
}

/// A login attempt.
#[derive(Debug, PartialEq, Eq)]
pub struct LoginRequest {
    pub username: String,
    pub password: String,
}

/// The answer to a successful login: the session token and the account.
#[derive(Debug, PartialEq, Eq)]
pub struct LoginResponse {
    pub token: String,
    pub usuario: Usuario,
}

/// The credential check of a login, given the account found under the
/// username (if any) and the password offered. An unknown user and a wrong
/// password are both refused with 401. `None` stands for a stored hash that
/// bcrypt cannot read, where the login cannot go on.
pub fn login(usuario: Option<Usuario>, password: &str) -> (r: Option<Result<Usuario, AppError>>)
    ensures
        usuario is None ==> r == Some(Err::<Usuario, AppError>(AppError::Unauthorized)),
        usuario matches Some(u) ==> match bcrypt_verifica(password@, u.password_hash@) {
            None => r is None,
            Some(true) => r == Some(Ok::<Usuario, AppError>(u)),
            Some(false) => r == Some(Err::<Usuario, AppError>(AppError::Unauthorized)),
        },
{
    match usuario {
        None => Some(Err(AppError::Unauthorized)),
        Some(u) => match verificar_bcrypt(password, u.password_hash.as_str()) {
            Err(_) => None,
            Ok(true) => Some(Ok(u)),
            Ok(false) => Some(Err(AppError::Unauthorized)),
        },
    }
}

/// The plan of the user's tenant: the one found, else `"BASIC"`.
pub fn plan_o_basico(consultado: Option<String>) -> (r: String)
    ensures
        consultado matches Some(p) ==> r@ == p@,
        consultado is None ==> r@ == "BASIC"@,
{
    match consultado {
        Some(p) => p,
        None => copiar("BASIC"),
    }
}

} // verus!
