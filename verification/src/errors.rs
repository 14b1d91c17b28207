//! The library's errors, the HTTP status each one answers with, its code and
//! its message.
use vstd::prelude::*;

use crate::texto::concatenar;

verus! {

/// The body sent back with an error.
#[derive(Debug, PartialEq, Eq)]
pub struct ErrorResponse {
    pub error: String,
    pub code: String,
}

/// What can go wrong while serving a request.
#[derive(Debug, PartialEq, Eq)]
pub enum AppError {
    NotFound(String),
    ValidationError(String),
    Conflict(String),
    /// A failure of the database, whatever it was.
    Database,
    Unauthorized,
    Forbidden,
}

/// The code of an error, as sent to the client.
pub open spec fn codigo_de(e: AppError) -> Seq<char> {
    match e {
        AppError::NotFound(_) => "NOT_FOUND"@,
        AppError::ValidationError(_) => "VALIDATION_ERROR"@,
        AppError::Conflict(_) => "CONFLICT"@,
        AppError::Database => "DATABASE_ERROR"@,
        AppError::Unauthorized => "UNAUTHORIZED"@,
        AppError::Forbidden => "FORBIDDEN"@,
    }
}

/// The HTTP status an error answers with.
pub open spec fn estado_de(e: AppError) -> u16 {
    match e {
        AppError::NotFound(_) => 404,
        AppError::ValidationError(_) => 400,
        AppError::Conflict(_) => 409,
        AppError::Database => 500,
        AppError::Unauthorized => 401,
        AppError::Forbidden => 403,
    }
}

/// The human-readable message of an error.
pub open spec fn mensaje_de(e: AppError) -> Seq<char> {
    match e {
        AppError::NotFound(m) => "Recurso no encontrado: "@ + m@,
        AppError::ValidationError(m) => "Error de validación: "@ + m@,
        AppError::Conflict(m) => "Conflicto: "@ + m@,
        AppError::Database => "Error de base de datos"@,
        AppError::Unauthorized => "No autorizado"@,
        AppError::Forbidden => "Acceso prohibido"@,
    }
}

/// Which of the six kinds an error is.
pub open spec fn clase_de(e: AppError) -> int {
    match e {
        AppError::NotFound(_) => 0,
        AppError::ValidationError(_) => 1,
        AppError::Conflict(_) => 2,
        AppError::Database => 3,
        AppError::Unauthorized => 4,
        AppError::Forbidden => 5,
    }
}

impl AppError {
    /// The code sent to the client for this error.
    pub fn get_code(&self) -> (r: &'static str)
        ensures
            r@ == codigo_de(*self),
    {
        match self {
            AppError::NotFound(_) => "NOT_FOUND",
            AppError::ValidationError(_) => "VALIDATION_ERROR",
            AppError::Conflict(_) => "CONFLICT",
            AppError::Database => "DATABASE_ERROR",
            AppError::Unauthorized => "UNAUTHORIZED",
            AppError::Forbidden => "FORBIDDEN",
        }
    }

    /// The HTTP status this error answers with.
    pub fn status(&self) -> (r: u16)
        ensures
            r == estado_de(*self),
    {
        match self {
            AppError::NotFound(_) => 404,
            AppError::ValidationError(_) => 400,
            AppError::Conflict(_) => 409,
            AppError::Database => 500,
            AppError::Unauthorized => 401,
            AppError::Forbidden => 403,
        }
    }

    /// The message of this error.
    pub fn mensaje(&self) -> (r: String)
        ensures
            r@ == mensaje_de(*self),
    {
        match self {
            AppError::NotFound(m) => concatenar("Recurso no encontrado: ", m.as_str()),
            AppError::ValidationError(m) => concatenar("Error de validación: ", m.as_str()),
            AppError::Conflict(m) => concatenar("Conflicto: ", m.as_str()),
            AppError::Database => "Error de base de datos".to_owned(),
            AppError::Unauthorized => "No autorizado".to_owned(),
            AppError::Forbidden => "Acceso prohibido".to_owned(),
        }
    }

    /// The status and the body that answer this error.
    pub fn into_response(self) -> (r: (u16, ErrorResponse))
        ensures
            r.0 == estado_de(self),
            r.1.error@ == mensaje_de(self),
            r.1.code@ == codigo_de(self),
    {
        let status = self.status();
        let error = self.mensaje();
        let code = self.get_code().to_owned();
        (status, ErrorResponse { error, code })
    }
}

/// Two errors of different kinds carry different codes and, but for none,
/// different statuses: a client can tell every kind apart by its code.
pub proof fn ley_codigos_distintos(a: AppError, b: AppError)
    requires
        clase_de(a) != clase_de(b),
    ensures
        codigo_de(a) != codigo_de(b),
        estado_de(a) != estado_de(b),
{
    reveal_strlit("NOT_FOUND");
    reveal_strlit("VALIDATION_ERROR");
    reveal_strlit("CONFLICT");
    reveal_strlit("DATABASE_ERROR");
    reveal_strlit("UNAUTHORIZED");
    reveal_strlit("FORBIDDEN");
    assert("NOT_FOUND"@.len() == 9 && "NOT_FOUND"@[0] == 'N');
    assert("VALIDATION_ERROR"@.len() == 16);
    assert("CONFLICT"@.len() == 8);
    assert("DATABASE_ERROR"@.len() == 14);
    assert("UNAUTHORIZED"@.len() == 12);
    assert("FORBIDDEN"@.len() == 9 && "FORBIDDEN"@[0] == 'F');
}

/// Each kind of error answers with its HTTP status: a missing resource 404,
/// invalid input 400, a conflict 409, a database failure 500, a missing or
/// bad credential 401, a forbidden action 403; the message of the first
/// three ends with the detail given.
pub proof fn ley_estados_http(e: AppError)
    ensures
        e is NotFound ==> estado_de(e) == 404,
        e is ValidationError ==> estado_de(e) == 400,
        e is Conflict ==> estado_de(e) == 409,
        e is Database ==> estado_de(e) == 500,
        e is Unauthorized ==> estado_de(e) == 401,
        e is Forbidden ==> estado_de(e) == 403,
        e matches AppError::NotFound(m) ==> mensaje_de(e) == "Recurso no encontrado: "@ + m@,
        e matches AppError::ValidationError(m) ==> mensaje_de(e) == "Error de validación: "@ + m@,
        e matches AppError::Conflict(m) ==> mensaje_de(e) == "Conflicto: "@ + m@,
{
}

} // verus!
