//! Creating API keys: a random key, shown once, stored only as its hash.
use vstd::prelude::*;

use crate::aleatorio::{alfanumerico_aleatorio, es_alfanumerico, es_hex_minuscula, es_uuid_v4, uuid_v4};
use crate::errors::AppError;
use crate::models::plan::Plan;
use crate::auth::{es_paso_inicio, es_paso_tras_consulta, hash_api_key, hash_de_llave, PasoAuth};
use crate::models::api_key::{tiene_scope_spec, ApiKey, ApiKeyGeneradaResponse, CrearApiKeyDto};
use crate::texto::{
    concatenar,
    copiar,
    dividir,
    lema_dividir_unir,
    recortar,
    sin_espacios_fin,
    sin_espacios_inicio,
    unir,
    unir_textos,
};

verus! {

/// How many characters a key has.
pub const LARGO_LLAVE: usize = 32;

/// A key about to be stored: its id, the random part of the key (handed out
/// once, behind the prefix), the hash to store, and the scopes joined with
/// commas.
#[derive(Debug, PartialEq, Eq)]
pub struct ApiKeyNueva {
    pub id: String,
    pub raw_key: String,
    pub hashed_key: String,
    pub scopes: String,
}

/// The texts of a list of strings.
pub open spec fn vistas(l: Seq<String>) -> Seq<Seq<char>> {
    l.map_values(|e: String| e@)
}

/// The prefix of every key handed out.
pub open spec fn prefijo_llave() -> Seq<char> {
    "sk_"@
}

/// The key as handed out to the client and as it is presented back in the
/// `X-API-Key` header: the prefix and the random part.
pub open spec fn llave_entregada(raw_key: Seq<char>) -> Seq<char> {
    prefijo_llave() + raw_key
}

/// A key from its id and its random part: the stored hash is the hash of the
/// key as handed out (prefix included), 64 lowercase hex digits, and the
/// scopes are joined with commas.
pub fn componer_api_key(id: String, raw_key: String, dto: &CrearApiKeyDto) -> (r: ApiKeyNueva)
    ensures
        r.id@ == id@,
        r.raw_key@ == raw_key@,
        r.hashed_key@ == hash_de_llave(llave_entregada(raw_key@)),
        r.hashed_key@.len() == 64,
        forall|i: int| 0 <= i < 64 ==> es_hex_minuscula(#[trigger] r.hashed_key@[i]),
        r.scopes@ == unir(vistas(dto.scopes@), ","@),
{
    let llave = concatenar("sk_", raw_key.as_str());
    let hashed_key = hash_api_key(llave.as_str());
    let scopes = unir_textos(&dto.scopes, ",");
    ApiKeyNueva { id, raw_key, hashed_key, scopes }
}

/// A new key for `dto`, for a tenant on `plan`: refused (403) unless the plan
/// includes API keys; otherwise a random version 4 UUID as its id and 32
/// random letters and digits after the prefix. The stored hash is neither the
/// key handed out nor its random part.
pub fn generar_api_key(dto: &CrearApiKeyDto, plan: &Plan) -> (r: Result<ApiKeyNueva, AppError>)
    ensures
        r is Err <==> !plan.incluye_integraciones(),
        r is Err ==> r == Err::<ApiKeyNueva, AppError>(AppError::Forbidden),
        r matches Ok(n) ==> {
            &&& es_uuid_v4(n.id@)
            &&& n.raw_key@.len() == LARGO_LLAVE
            &&& forall|i: int| 0 <= i < LARGO_LLAVE ==> es_alfanumerico(#[trigger] n.raw_key@[i])
            &&& n.hashed_key@ == hash_de_llave(llave_entregada(n.raw_key@))
            &&& n.hashed_key@.len() == 64
            &&& forall|i: int| 0 <= i < 64 ==> es_hex_minuscula(#[trigger] n.hashed_key@[i])
            &&& n.hashed_key@ != n.raw_key@
            &&& n.hashed_key@ != llave_entregada(n.raw_key@)
            &&& n.scopes@ == unir(vistas(dto.scopes@), ","@)
        },
{
    if !plan.permite_integraciones() {
        return Err(AppError::Forbidden);
    }
    let id = uuid_v4();
    let raw_key = alfanumerico_aleatorio(LARGO_LLAVE);
    let n = componer_api_key(id, raw_key, dto);
    proof {
        reveal_strlit("sk_");
        assert(llave_entregada(n.raw_key@).len() == 3 + LARGO_LLAVE);
    }
    Ok(n)
}

impl ApiKeyNueva {
    /// The answer to the creation: the id, and the key in clear as handed out
    /// (prefix included), the text to send back in `X-API-Key`.
    pub fn respuesta(&self) -> (r: ApiKeyGeneradaResponse)
        ensures
            r.id@ == self.id@,
            r.key@ == llave_entregada(self.raw_key@),
    {
        ApiKeyGeneradaResponse {
            id: copiar(self.id.as_str()),
            key: concatenar("sk_", self.raw_key.as_str()),
        }
    }
}

/// The key handed out by key creation authenticates: where the new key is
/// stored (its id, hash and scopes), a request carrying the handed-out key in
/// `X-API-Key` is looked up under exactly the stored hash, and once that row
/// is found it goes through as the key, with role `"api_key"` and the key's
/// scopes, whatever its `Authorization` header holds.
pub proof fn ley_llave_entregada_autentica(
    nueva: ApiKeyNueva,
    entregada: ApiKeyGeneradaResponse,
    guardada: ApiKey,
    authorization: Option<Seq<char>>,
    consulta: PasoAuth,
    tras_consulta: PasoAuth,
)
    requires
        nueva.hashed_key@ == hash_de_llave(llave_entregada(nueva.raw_key@)),
        entregada.key@ == llave_entregada(nueva.raw_key@),
        guardada.id@ == nueva.id@,
        guardada.hashed_key@ == nueva.hashed_key@,
        guardada.scopes@ == nueva.scopes@,
        es_paso_inicio(consulta, Some(entregada.key@), authorization),
        es_paso_tras_consulta(tras_consulta, Some(guardada), authorization),
    ensures
        consulta matches PasoAuth::ConsultarApiKey(h) && h@ == guardada.hashed_key@,
        tras_consulta matches PasoAuth::Aceptar(c) && c.sub@ == nueva.id@ && c.rol@ == "api_key"@
            && (c.scopes matches Some(s) && s@ == nueva.scopes@),
{
}

/// A key created with a list of scopes grants exactly the scopes of that
/// list, provided no scope holds a comma or surrounding white space (and the
/// list is not empty where the scope asked for is the empty one).
pub proof fn ley_scopes_de_llave_creada(l: Seq<Seq<char>>, s: Seq<char>)
    requires
        forall|k: int, j: int| 0 <= k < l.len() && 0 <= j < l[k].len() ==> #[trigger] l[k][j] != ',',
        forall|k: int| 0 <= k < l.len() ==> #[trigger] recortar(l[k]) == l[k],
        l.len() > 0 || s.len() > 0,
    ensures
        tiene_scope_spec(unir(l, ","@), s) <==> l.contains(s),
{
    reveal_strlit(",");
    assert(","@ =~= seq![',']);
    if l.len() > 0 {
        lema_dividir_unir(l, ',');
        let d = dividir(unir(l, ","@), ',');
        assert(d == l);
        if l.contains(s) {
            let k = choose|k: int| 0 <= k < l.len() && l[k] == s;
            assert(recortar(d[k]) == s);
        }
        if tiene_scope_spec(unir(l, ","@), s) {
            let k = choose|k: int| 0 <= k < d.len() && #[trigger] recortar(d[k]) == s;
            assert(recortar(l[k]) == l[k]);
            assert(l[k] == s);
        }
    } else {
        let vacio = Seq::<char>::empty();
        assert(unir(l, ","@) == vacio);
        assert(dividir(vacio, ',') == seq![vacio]);
        assert(sin_espacios_inicio(vacio) == vacio);
        assert(sin_espacios_fin(vacio) == vacio);
        assert(recortar(vacio) == vacio);
        if tiene_scope_spec(unir(l, ","@), s) {
            let k = choose|k: int|
                0 <= k < dividir(vacio, ',').len() && #[trigger] recortar(dividir(vacio, ',')[k]) == s;
            assert(k == 0);
        }
    }
}

/// The key handed out is `"sk_"` followed by the whole random part: it
/// begins with that prefix and gives back the random part after it.
pub proof fn ley_forma_de_la_llave(raw_key: Seq<char>)
    ensures
        llave_entregada(raw_key) == "sk_"@ + raw_key,
        llave_entregada(raw_key).skip(3) == raw_key,
        llave_entregada(raw_key).take(3) == "sk_"@,
{
    reveal_strlit("sk_");
    assert(llave_entregada(raw_key).skip(3) =~= raw_key);
    assert(llave_entregada(raw_key).take(3) =~= "sk_"@);
}

} // verus!
