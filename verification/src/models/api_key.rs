//! API keys: stored hashed, each with a comma-separated list of scopes.
use vstd::prelude::*;

use crate::texto::{caracteres, dividir, dividir_por, mismos_caracteres, recortar, recortar_caracteres};

verus! {

/// An API key as stored: the key itself only as its hash.
#[derive(Debug, PartialEq, Eq)]
pub struct ApiKey {
    pub id: String,
    pub tenant_id: String,
    pub nombre: String,
    pub hashed_key: String,
    pub scopes: String,
    pub creado_en: String,
    pub ultima_vez_usada: Option<String>,
}

/// The data to create an API key: a name and its scopes.
#[derive(Debug, PartialEq, Eq)]
pub struct CrearApiKeyDto {
    pub nombre: String,
    pub scopes: Vec<String>,
}

/// A new key, in clear: shown this once only.
#[derive(Debug, PartialEq, Eq)]
pub struct ApiKeyGeneradaResponse {
    pub id: String,
    pub key: String,
}

/// The scope list `scopes`, split at each comma, holds a piece that is
/// `scope` once its surrounding white space is removed.
pub open spec fn tiene_scope_spec(scopes: Seq<char>, scope: Seq<char>) -> bool {
    exists|k: int|
        0 <= k < dividir(scopes, ',').len() && #[trigger] recortar(dividir(scopes, ',')[k]) == scope
}

/// Whether the comma-separated scope list `scopes` grants `scope`: one of
/// its pieces, trimmed, is `scope`.
pub fn lista_tiene_scope(scopes: &str, scope: &str) -> (r: bool)
    ensures
        r == tiene_scope_spec(scopes@, scope@),
{
    let partes = dividir_por(scopes, ',');
    let buscado = caracteres(scope);
    let ghost d = dividir(scopes@, ',');
    let mut k: usize = 0;
    while k < partes.len()
        invariant
            k <= partes@.len(),
            partes@.len() == d.len(),
            d == dividir(scopes@, ','),
            buscado@ == scope@,
            forall|j: int| 0 <= j < partes@.len() ==> #[trigger] partes@[j]@ == d[j],
            forall|j: int| 0 <= j < k ==> #[trigger] recortar(d[j]) != scope@,
        decreases partes.len() - k,
    {
        let t = recortar_caracteres(partes[k].as_slice());
        assert(partes@[k as int]@ == d[k as int]);
        if mismos_caracteres(t.as_slice(), buscado.as_slice()) {
            return true;
        }
        k = k + 1;
    }
    false
}

impl ApiKey {
    /// Whether the key grants `scope`.
    pub fn tiene_scope(&self, scope: &str) -> (r: bool)
        ensures
            r == tiene_scope_spec(self.scopes@, scope@),
    {
        lista_tiene_scope(self.scopes.as_str(), scope)
    }
}

} // verus!
