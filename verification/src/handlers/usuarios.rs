//! User administration: the roles a user may be given.
use vstd::prelude::*;

use crate::errors::AppError;
use crate::texto::{copiar, mismo_texto};

verus! {

/// The roles an administrator may give a user.
pub open spec fn rol_asignable(rol: Seq<char>) -> bool {
    rol == "admin"@ || rol == "usuario"@
}

/// The check of a role change: only `"admin"` and `"usuario"` may be given;
/// anything else is "Rol inválido".
pub fn validar_rol(rol: &str) -> (r: Result<(), AppError>)
    ensures
        r is Ok <==> rol_asignable(rol@),
        !rol_asignable(rol@) ==> (r matches Err(AppError::ValidationError(m)) && m@ == "Rol inválido"@),
{
    if !mismo_texto(rol, "admin") && !mismo_texto(rol, "usuario") {
        return Err(AppError::ValidationError(copiar("Rol inválido")));
    }
    Ok(())
}

/// A user can be given exactly the roles `"admin"` and `"usuario"`: never
/// `"superadmin"` nor `"api_key"`, nor any other text.
pub proof fn ley_roles_asignables(rol: Seq<char>)
    ensures
        rol_asignable(rol) <==> (rol == "admin"@ || rol == "usuario"@),
        rol == "superadmin"@ ==> !rol_asignable(rol),
        rol == "api_key"@ ==> !rol_asignable(rol),
{
    reveal_strlit("admin");
    reveal_strlit("usuario");
    reveal_strlit("superadmin");
    reveal_strlit("api_key");
    assert("superadmin"@.len() != "admin"@.len() && "superadmin"@.len() != "usuario"@.len());
    if rol == "api_key"@ {
        assert(rol[0] == 'a' && "usuario"@[0] == 'u');
        assert(rol.len() != "admin"@.len());
    }
}

} // verus!
