//! The product list of version 2, open to API keys with the right scope.
use vstd::prelude::*;

use crate::auth::{son_claims_de_llave, Claims};
use crate::models::api_key::{lista_tiene_scope, tiene_scope_spec, ApiKey};
use crate::errors::AppError;
use crate::texto::mismo_texto;

verus! {

/// Whether the claims may list products: anyone but an API key may; an API
/// key may when `"products:read"` or `"*"` is one of its scopes (a trimmed
/// comma-separated piece of its scope list; a key without scopes has none).
pub open spec fn puede_listar_productos(c: Claims) -> bool {
    c.rol@ != "api_key"@ || ({
        let s = match c.scopes {
            Some(s) => s@,
            None => Seq::<char>::empty(),
        };
        tiene_scope_spec(s, "products:read"@) || tiene_scope_spec(s, "*"@)
    })
}

/// The scope check of `listar_v2`: refused with 403 where the claims may not
/// list products.
pub fn listar_v2(claims: &Claims) -> (r: Result<(), AppError>)
    ensures
        r is Ok <==> puede_listar_productos(*claims),
        claims.rol@ != "api_key"@ ==> r is Ok,
        r is Err ==> r == Err::<(), AppError>(AppError::Forbidden),
{
    if mismo_texto(claims.rol.as_str(), "api_key") {
        let scopes: &str = match &claims.scopes {
            Some(s) => s.as_str(),
            None => "",
        };
        proof {
            reveal_strlit("");
            assert(""@ =~= Seq::<char>::empty());
        }
        assert(scopes@ == match claims.scopes {
            Some(s) => s@,
            None => Seq::<char>::empty(),
        });
        if !lista_tiene_scope(scopes, "products:read") && !lista_tiene_scope(scopes, "*") {
            return Err(AppError::Forbidden);
        }
    }
    Ok(())
}

/// An API key that grants `"products:read"` may list products in version 2.
pub proof fn ley_scope_lectura_permite_listar(c: Claims, ak: ApiKey)
    requires
        son_claims_de_llave(c, ak),
        tiene_scope_spec(ak.scopes@, "products:read"@),
    ensures
        puede_listar_productos(c),
{
}

/// An API key whose scopes hold neither `"products:read"` nor `"*"` as a
/// whole piece may not list products, whatever else its scope text contains
/// (such as `"products:readonly"`).
pub proof fn ley_scope_sin_lectura_no_lista(c: Claims, ak: ApiKey)
    requires
        son_claims_de_llave(c, ak),
        !tiene_scope_spec(ak.scopes@, "products:read"@),
        !tiene_scope_spec(ak.scopes@, "*"@),
    ensures
        !puede_listar_productos(c),
{
}

/// Only API keys are held to their scopes: claims with any other role (a
/// user, an administrator, a superadministrator) may always list products,
/// whatever scopes they carry.
pub proof fn ley_sin_llave_no_se_revisa_scope(c: Claims)
    requires
        c.rol@ != "api_key"@,
    ensures
        puede_listar_productos(c),
{
}

} // verus!
