//! Authentication and authorisation: the claims a request carries, the
//! session claims of a login, API-key hashing, the steps of the
//! authentication middleware and the role checks.
use jsonwebtoken::{decode, encode, DecodingKey, EncodingKey, Header, Validation};
use serde_json::Value;
use vstd::prelude::*;

use crate::aleatorio::es_hex_minuscula;
use crate::cripto::{hex_encode, hex_minusculas, lema_hex_minusculas, sha256, sha256_digest};
use crate::models::api_key::ApiKey;
use crate::texto::{caracteres, copiar, empieza_con, empieza_con_texto, mismo_texto, texto_de};

verus! {

/// Who a request acts for: a user (`sub` its id) or an API key (`sub` the
/// key's id), within a tenant, with a role and, for API keys, scopes.
#[derive(Debug, PartialEq, Eq)]
pub struct Claims {
    pub sub: String,
    pub tenant_id: String,
    pub rol: String,
    pub scopes: Option<String>,
    pub exp: usize,
}

/// How long a session lasts, in seconds: 24 hours.
pub const SEGUNDOS_SESION: i64 = 86400;

/// The earliest UNIX time that `chrono::DateTime<Utc>` holds
/// (the first second of year -262143).
pub const TS_MINIMO: i64 = -8334601315200;

/// The latest UNIX time that `chrono::DateTime<Utc>` holds
/// (the last second of year 262142).
pub const TS_MAXIMO: i64 = 8210266876799;

/// The secret that signs the session tokens when `JWT_SECRET` is not set.
pub open spec fn secreto_por_defecto() -> Seq<char> {
    "secret"@
}

/// The secret that signs session tokens: the value of `JWT_SECRET` where it
/// is set (and readable), else `"secret"`.
pub fn secreto_jwt(variable: Option<String>) -> (r: String)
    ensures
        variable matches Some(v) ==> r@ == v@,
        variable is None ==> r@ == secreto_por_defecto(),
{
    match variable {
        Some(v) => v,
        None => copiar("secret"),
    }
}

/// `c` are the claims of a session of `user_id` in `tenant_id` with role
/// `rol`, opened at UNIX time `ahora`: no scopes, expiry 24 hours later.
pub open spec fn son_claims_de_sesion(
    c: Claims,
    user_id: Seq<char>,
    tenant_id: Seq<char>,
    rol: Seq<char>,
    ahora: int,
) -> bool {
    &&& c.sub@ == user_id
    &&& c.tenant_id@ == tenant_id
    &&& c.rol@ == rol
    &&& c.scopes is None
    &&& c.exp == (ahora + SEGUNDOS_SESION) as usize
}

/// The claims of a session opened at UNIX time `ahora`: they expire 24 hours
/// later and carry no scopes.
pub fn claims_de_sesion(user_id: &str, tenant_id: &str, rol: &str, ahora: i64) -> (r: Claims)
    requires
        TS_MINIMO <= ahora,
        ahora + SEGUNDOS_SESION <= TS_MAXIMO,
    ensures
        son_claims_de_sesion(r, user_id@, tenant_id@, rol@, ahora as int),
        r.sub@ == user_id@,
        r.tenant_id@ == tenant_id@,
        r.rol@ == rol@,
        r.scopes is None,
{
    let fin: i64 = ahora + SEGUNDOS_SESION;
    Claims {
        sub: copiar(user_id),
        tenant_id: copiar(tenant_id),
        rol: copiar(rol),
        scopes: None,
        exp: #[verifier::truncate] (fin as usize),
    }
}

/// The hash under which an API key is stored: the lowercase hex of the
/// SHA-256 digest of its UTF-8 bytes.
pub open spec fn hash_de_llave(key: Seq<char>) -> Seq<char> {
    hex_minusculas(sha256_digest(vstd::utf8::encode_utf8(key)))
}

/// Hashes an API key for storage and lookup: 64 lowercase hex digits.
pub fn hash_api_key(key: &str) -> (r: String)
    ensures
        r@ == hash_de_llave(key@),
        r@.len() == 64,
        forall|i: int| 0 <= i < 64 ==> es_hex_minuscula(#[trigger] r@[i]),
{
    let bytes = key.as_bytes();
    let digest = sha256(bytes);
    proof {
        lema_hex_minusculas(digest@);
    }
    hex_encode(digest.as_slice())
}

/// The claims of a request authenticated by the API key `ak`.
pub open spec fn son_claims_de_llave(c: Claims, ak: ApiKey) -> bool {
    &&& c.sub@ == ak.id@
    &&& c.tenant_id@ == ak.tenant_id@
    &&& c.rol@ == "api_key"@
    &&& (c.scopes matches Some(s) && s@ == ak.scopes@)
    &&& c.exp == 0
}

/// The claims of a request authenticated by an API key: role `"api_key"`,
/// the key's scopes, and no expiry.
pub fn claims_de_api_key(ak: ApiKey) -> (r: Claims)
    ensures
        son_claims_de_llave(r, ak),
        r.sub@ == ak.id@,
        r.tenant_id@ == ak.tenant_id@,
        r.rol@ == "api_key"@,
        r.scopes matches Some(s) && s@ == ak.scopes@,
        r.exp == 0,
{
    Claims {
        sub: ak.id,
        tenant_id: ak.tenant_id,
        rol: copiar("api_key"),
        scopes: Some(ak.scopes),
        exp: 0,
    }
}

/// The token of an `Authorization` header: what follows `"Bearer "`, if the
/// header begins with it.
pub fn token_bearer(cabecera: &str) -> (r: Option<String>)
    ensures
        empieza_con(cabecera@, "Bearer "@) ==> (r matches Some(t) && t@ == cabecera@.skip(7)),
        !empieza_con(cabecera@, "Bearer "@) ==> r is None,
{
    proof {
        reveal_strlit("Bearer ");
    }
    if !empieza_con_texto(cabecera, "Bearer ") {
        return None;
    }
    let c = caracteres(cabecera);
    let mut resto: Vec<char> = Vec::new();
    let mut i: usize = 7;
    while i < c.len()
        invariant
            7 <= i <= c@.len(),
            c@ == cabecera@,
            resto@ == c@.subrange(7, i as int),
        decreases c.len() - i,
    {
        resto.push(c[i]);
        assert(c@.subrange(7, i + 1) =~= c@.subrange(7, i as int).push(c@[i as int]));
        i = i + 1;
    }
    assert(c@.subrange(7, c@.len() as int) =~= c@.skip(7));
    Some(texto_de(resto.as_slice()))
}

/// What the authentication middleware does next.
#[derive(Debug, PartialEq, Eq)]
pub enum PasoAuth {
    /// Look up the API key stored under this hash.
    ConsultarApiKey(String),
    /// Decode and check this session token.
    VerificarJwt(String),
    /// Let the request through with these claims.
    Aceptar(Claims),
    /// Answer 401.
    Rechazar,
}

/// The step that the `Authorization` header leads to: checking the bearer
/// token it carries, or refusing the request.
pub open spec fn es_paso_jwt(r: PasoAuth, authorization: Option<Seq<char>>) -> bool {
    match authorization {
        Some(a) => if empieza_con(a, "Bearer "@) {
            r matches PasoAuth::VerificarJwt(t) && t@ == a.skip(7)
        } else {
            r is Rechazar
        },
        None => r is Rechazar,
    }
}

fn paso_jwt(authorization: Option<&str>) -> (r: PasoAuth)
    ensures
        es_paso_jwt(r, opcion_vista(authorization)),
{
    match authorization {
        Some(a) => match token_bearer(a) {
            Some(t) => PasoAuth::VerificarJwt(t),
            None => PasoAuth::Rechazar,
        },
        None => PasoAuth::Rechazar,
    }
}

/// The view of an optional text.
pub open spec fn opcion_vista(o: Option<&str>) -> Option<Seq<char>> {
    match o {
        Some(s) => Some(s@),
        None => None,
    }
}

/// The first step of the middleware for these headers: an API key is
/// looked up by its hash; without one, the `Authorization` header decides.
pub open spec fn es_paso_inicio(
    r: PasoAuth,
    api_key: Option<Seq<char>>,
    authorization: Option<Seq<char>>,
) -> bool {
    match api_key {
        Some(k) => r matches PasoAuth::ConsultarApiKey(h) && h@ == hash_de_llave(k),
        None => es_paso_jwt(r, authorization),
    }
}

/// The step after the API-key lookup found `encontrada`: a stored key lets
/// the request through with its claims; otherwise the `Authorization` header
/// decides.
pub open spec fn es_paso_tras_consulta(
    r: PasoAuth,
    encontrada: Option<ApiKey>,
    authorization: Option<Seq<char>>,
) -> bool {
    match encontrada {
        Some(ak) => r matches PasoAuth::Aceptar(c) && son_claims_de_llave(c, ak),
        None => es_paso_jwt(r, authorization),
    }
}

/// The first step of the middleware, from the `X-API-Key` and
/// `Authorization` headers: an API key is looked up by its hash first;
/// without one, the bearer token is checked; without that, the request is
/// refused.
pub fn auth_middleware_inicio(api_key: Option<&str>, authorization: Option<&str>) -> (r: PasoAuth)
    ensures
        es_paso_inicio(r, opcion_vista(api_key), opcion_vista(authorization)),
{
    match api_key {
        Some(k) => PasoAuth::ConsultarApiKey(hash_api_key(k)),
        None => paso_jwt(authorization),
    }
}

/// The step after the API-key lookup: a key that was found authenticates the
/// request; otherwise the bearer token decides.
pub fn auth_middleware_tras_consulta(encontrada: Option<ApiKey>, authorization: Option<&str>) -> (r:
    PasoAuth)
    ensures
        es_paso_tras_consulta(r, encontrada, opcion_vista(authorization)),
{
    match encontrada {
        Some(ak) => PasoAuth::Aceptar(claims_de_api_key(ak)),
        None => paso_jwt(authorization),
    }
}

/// What the logic reads of a token's claims: subject, tenant, role, scopes
/// and expiry.
pub open spec fn vista_claims(c: Claims) -> (Seq<char>, Seq<char>, Seq<char>, Option<Seq<char>>, usize) {
    (
        c.sub@,
        c.tenant_id@,
        c.rol@,
        match c.scopes {
            Some(s) => Some(s@),
            None => None,
        },
        c.exp,
    )
}

/// The view of claims that may be missing.
pub open spec fn vista_claims_opcional(o: Option<Claims>) -> Option<
    (Seq<char>, Seq<char>, Seq<char>, Option<Seq<char>>, usize),
> {
    match o {
        Some(c) => Some(vista_claims(c)),
        None => None,
    }
}

/// The token that `jsonwebtoken::encode` makes, with the default header
/// (HS256), of the claims with these fields, signed with `secreto`.
pub uninterp spec fn token_hs256(
    sub: Seq<char>,
    tenant_id: Seq<char>,
    rol: Seq<char>,
    scopes: Option<Seq<char>>,
    exp: usize,
    secreto: Seq<char>,
) -> Seq<char>;

/// What `jsonwebtoken::decode` reads from `token` with the secret `secreto`
/// under the default validation with the expiry check turned off: `None`
/// where the token is malformed, its signature or algorithm does not check,
/// or its payload lacks the claims' fields; else the claims' fields.
pub uninterp spec fn claims_de_jwt(token: Seq<char>, secreto: Seq<char>) -> Option<
    (Seq<char>, Seq<char>, Seq<char>, Option<Seq<char>>, usize),
>;

/// `jsonwebtoken::encode` with the default header (HS256) and an HMAC key
/// from `secreto`, of a JSON object with the fields of `c`.
/// Trusted: a token that comes back is the named token of those fields and
/// secret, and `jsonwebtoken::decode` with the same secret (expiry check
/// off) reads those same fields back from it. What the token's text is, is
/// not stated.
#[verifier::external_body]
fn firmar_jwt(c: &Claims, secreto: &str) -> (r: Option<String>)
    ensures
        r matches Some(t) ==> t@ == token_hs256(c.sub@, c.tenant_id@, c.rol@, vista_claims(*c).3, c.exp, secreto@)
            && claims_de_jwt(t@, secreto@) == Some(vista_claims(*c)),
{
    let mut m = serde_json::Map::new();
    m.insert("sub".into(), c.sub.as_str().into());
    m.insert("tenant_id".into(), c.tenant_id.as_str().into());
    m.insert("rol".into(), c.rol.as_str().into());
    m.insert("scopes".into(), c.scopes.clone().into());
    m.insert("exp".into(), c.exp.into());
    encode(&Header::default(), &m, &EncodingKey::from_secret(secreto.as_bytes())).ok()
}

/// `jsonwebtoken::decode` of `token` with the secret `secreto`, under the
/// default validation (HS256) with the expiry check turned off, read as
/// claims.
/// Trusted: the result is the named reading of the token and the secret.
#[verifier::external_body]
fn leer_jwt(token: &str, secreto: &str) -> (r: Option<Claims>)
    ensures
        vista_claims_opcional(r) == claims_de_jwt(token@, secreto@),
{
    let mut v = Validation::default();
    v.validate_exp = false;
    let d: Value = decode(token, &DecodingKey::from_secret(secreto.as_bytes()), &v).ok()?.claims;
    let scopes = match &d["scopes"] {
        Value::Null => None,
        s => Some(s.as_str()?.to_owned()),
    };
    let exp = usize::try_from(d["exp"].as_u64()?).ok()?;
    let (sub, tenant_id, rol) = (d["sub"].as_str()?, d["tenant_id"].as_str()?, d["rol"].as_str()?);
    Some(Claims { sub: sub.into(), tenant_id: tenant_id.into(), rol: rol.into(), scopes, exp })
}

/// How many seconds past its expiry a token is still accepted (the default
/// leeway of `jsonwebtoken`'s validation).
pub const MARGEN_EXPIRACION: i64 = 60;

/// A token expiring at `exp` is still valid at UNIX time `ahora`.
pub open spec fn vigente(exp: usize, ahora: int) -> bool {
    exp + MARGEN_EXPIRACION >= ahora
}

/// The expiry check: the claims are still valid at UNIX time `ahora`, with a
/// leeway of 60 seconds.
pub fn sesion_vigente(c: &Claims, ahora: i64) -> (r: bool)
    ensures
        r == vigente(c.exp, ahora as int),
{
    if ahora < MARGEN_EXPIRACION {
        true
    } else {
        let limite: i64 = ahora - MARGEN_EXPIRACION;
        (limite as u64) <= (c.exp as u64)
    }
}

/// The token of a session of `user_id` in `tenant_id` with role `rol`,
/// opened at UNIX time `ahora` and signed with `secreto`: the signed session
/// claims, which read back as those claims.
pub open spec fn es_token_de_sesion(
    t: Seq<char>,
    user_id: Seq<char>,
    tenant_id: Seq<char>,
    rol: Seq<char>,
    ahora: int,
    secreto: Seq<char>,
) -> bool {
    let exp = (ahora + SEGUNDOS_SESION) as usize;
    &&& t == token_hs256(user_id, tenant_id, rol, None, exp, secreto)
    &&& claims_de_jwt(t, secreto) == Some((user_id, tenant_id, rol, None::<Seq<char>>, exp))
}

/// The session token of a login at UNIX time `ahora`, signed with `secreto`;
/// `None` where the encoder fails.
pub fn create_jwt(user_id: &str, tenant_id: &str, rol: &str, ahora: i64, secreto: &str) -> (r: Option<String>)
    requires
        TS_MINIMO <= ahora,
        ahora + SEGUNDOS_SESION <= TS_MAXIMO,
    ensures
        r matches Some(t) ==> es_token_de_sesion(t@, user_id@, tenant_id@, rol@, ahora as int, secreto@),
{
    let claims = claims_de_sesion(user_id, tenant_id, rol, ahora);
    firmar_jwt(&claims, secreto)
}

/// The step after reading the bearer token at UNIX time `ahora`: claims
/// still valid let the request through, anything else is refused.
pub open spec fn es_paso_tras_jwt(
    r: PasoAuth,
    leido: Option<(Seq<char>, Seq<char>, Seq<char>, Option<Seq<char>>, usize)>,
    ahora: int,
) -> bool {
    match leido {
        Some(v) => if vigente(v.4, ahora) {
            r matches PasoAuth::Aceptar(c) && vista_claims(c) == v
        } else {
            r is Rechazar
        },
        None => r is Rechazar,
    }
}

/// The step after reading the bearer token at UNIX time `ahora`: claims that
/// are still valid let the request through, anything else is refused.
pub fn auth_middleware_tras_jwt(decodificado: Option<Claims>, ahora: i64) -> (r: PasoAuth)
    ensures
        es_paso_tras_jwt(r, vista_claims_opcional(decodificado), ahora as int),
        decodificado matches Some(c) ==> (vigente(c.exp, ahora as int) ==> r == PasoAuth::Aceptar(c)),
{
    match decodificado {
        Some(c) => if sesion_vigente(&c, ahora) {
            PasoAuth::Aceptar(c)
        } else {
            PasoAuth::Rechazar
        },
        None => PasoAuth::Rechazar,
    }
}

/// The bearer-token step of the middleware: the token is read with the
/// secret, and the claims read let the request through while still valid at
/// UNIX time `ahora`.
pub fn verificar_jwt(token: &str, secreto: &str, ahora: i64) -> (r: PasoAuth)
    ensures
        es_paso_tras_jwt(r, claims_de_jwt(token@, secreto@), ahora as int),
{
    let leido = leer_jwt(token, secreto);
    auth_middleware_tras_jwt(leido, ahora)
}

/// The roles that pass the administrator check.
pub open spec fn es_rol_admin(rol: Seq<char>) -> bool {
    rol == "admin"@ || rol == "superadmin"@
}

/// The status of a refused role check.
pub const PROHIBIDO: u16 = 403;

/// The administrator check: admins and superadmins pass, anyone else gets 403.
pub fn require_admin(claims: &Claims) -> (r: Result<(), u16>)
    ensures
        r is Ok <==> es_rol_admin(claims.rol@),
        r is Err ==> r == Err::<(), u16>(PROHIBIDO),
{
    if mismo_texto(claims.rol.as_str(), "admin") || mismo_texto(claims.rol.as_str(), "superadmin") {
        Ok(())
    } else {
        Err(PROHIBIDO)
    }
}

/// The superadministrator check: only superadmins pass, anyone else gets 403.
pub fn require_superadmin(claims: &Claims) -> (r: Result<(), u16>)
    ensures
        r is Ok <==> claims.rol@ == "superadmin"@,
        r is Err ==> r == Err::<(), u16>(PROHIBIDO),
{
    if mismo_texto(claims.rol.as_str(), "superadmin") {
        Ok(())
    } else {
        Err(PROHIBIDO)
    }
}

/// Whoever passes the superadministrator check passes the administrator
/// check too.
pub proof fn ley_superadmin_es_admin(rol: Seq<char>)
    requires
        rol == "superadmin"@,
    ensures
        es_rol_admin(rol),
{
}

/// A request authenticated by an API key never passes the administrator
/// check: API keys act with the role `"api_key"`.
pub proof fn ley_llave_no_es_admin(c: Claims, ak: ApiKey)
    requires
        son_claims_de_llave(c, ak),
    ensures
        !es_rol_admin(c.rol@),
{
    reveal_strlit("api_key");
    reveal_strlit("admin");
    reveal_strlit("superadmin");
    assert("api_key"@.len() == 7);
    assert("admin"@.len() == 5);
    assert("superadmin"@.len() == 10);
}

/// A session token goes through the middleware with the claims it was issued
/// with: a token made by `create_jwt` for a user, tenant and role at time
/// `emitido`, read with the same secret at any time `ahora` before its
/// expiry, lets the request through with that user, tenant and role, no
/// scopes, and the expiry 24 hours after `emitido`.
pub proof fn ley_sesion_pasa_con_sus_claims(
    token: Seq<char>,
    user_id: Seq<char>,
    tenant_id: Seq<char>,
    rol: Seq<char>,
    emitido: int,
    secreto: Seq<char>,
    ahora: int,
    paso: PasoAuth,
)
    requires
        es_token_de_sesion(token, user_id, tenant_id, rol, emitido, secreto),
        0 <= emitido + SEGUNDOS_SESION <= usize::MAX,
        ahora <= emitido + SEGUNDOS_SESION,
        es_paso_tras_jwt(paso, claims_de_jwt(token, secreto), ahora),
    ensures
        paso matches PasoAuth::Aceptar(c) && son_claims_de_sesion(c, user_id, tenant_id, rol, emitido),
        paso matches PasoAuth::Aceptar(c) && c.exp == emitido + SEGUNDOS_SESION,
{
}

/// A request authenticated by an API key acts exactly as that key: its
/// subject is the key's id, its tenant the key's whole tenant id, its role
/// `"api_key"`, its scopes the key's scopes, and it carries no expiry.
pub proof fn ley_claims_de_llave_exactas(c: Claims, ak: ApiKey)
    requires
        son_claims_de_llave(c, ak),
    ensures
        c.sub@ == ak.id@,
        c.tenant_id@ == ak.tenant_id@,
        c.tenant_id@.len() == ak.tenant_id@.len(),
        c.rol@ == "api_key"@,
        c.scopes is Some,
        c.scopes->0@ == ak.scopes@,
        c.exp == 0,
{
}

/// The middleware lets a request with a stored API key through in that
/// key's own tenant, whatever its `Authorization` header holds.
pub proof fn ley_llave_actua_en_su_tenant(
    r: PasoAuth,
    ak: ApiKey,
    authorization: Option<Seq<char>>,
)
    requires
        es_paso_tras_consulta(r, Some(ak), authorization),
    ensures
        r matches PasoAuth::Aceptar(c) && c.tenant_id@ == ak.tenant_id@ && c.sub@ == ak.id@,
{
}

/// Session claims are the user's, in the user's tenant, with the user's role
/// and no scopes, and expire 24 hours (86400 seconds) after the session
/// opens.
pub proof fn ley_claims_de_sesion_exactas(
    c: Claims,
    user_id: Seq<char>,
    tenant_id: Seq<char>,
    rol: Seq<char>,
    ahora: int,
)
    requires
        son_claims_de_sesion(c, user_id, tenant_id, rol, ahora),
        0 <= ahora + 86400 <= usize::MAX,
    ensures
        c.sub@ == user_id,
        c.tenant_id@ == tenant_id,
        c.rol@ == rol,
        c.scopes is None,
        c.exp == ahora + 86400,
{
}

/// A token is accepted up to 60 seconds past its expiry and no later.
pub proof fn ley_vigencia(exp: usize, ahora: int)
    ensures
        vigente(exp, ahora) <==> ahora - exp <= 60,
{
}

/// Exactly administrators and superadministrators pass the administrator
/// check.
pub proof fn ley_roles_de_administracion(rol: Seq<char>)
    ensures
        es_rol_admin(rol) <==> (rol == "admin"@ || rol == "superadmin"@),
{
}

} // verus!
