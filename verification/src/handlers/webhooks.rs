//! Registering webhook endpoints: a random id and a random signing secret.
use vstd::prelude::*;

use crate::aleatorio::{alfanumerico_aleatorio, es_alfanumerico, es_uuid_v4, uuid_v4};
use crate::errors::AppError;
use crate::handlers::api_keys::vistas;
use crate::models::plan::Plan;
use crate::models::webhook::CrearWebhookDto;
use crate::texto::{concatenar, unir, unir_textos};

verus! {

/// How many random characters a signing secret has, after its prefix.
pub const LARGO_SECRETO: usize = 24;

/// An endpoint about to be stored: its id, its signing secret, and the event
/// types joined with commas.
#[derive(Debug, PartialEq, Eq)]
pub struct EndpointNuevo {
    pub id: String,
    pub secret: String,
    pub event_types: String,
}

/// An endpoint from a UUID and a random text: the id is `"wh_"` and the UUID,
/// the secret `"whsec_"` and the random text.
pub fn componer_endpoint(uuid: &str, aleatorio: &str, dto: &CrearWebhookDto) -> (r: EndpointNuevo)
    ensures
        r.id@ == "wh_"@ + uuid@,
        r.secret@ == "whsec_"@ + aleatorio@,
        r.event_types@ == unir(vistas(dto.event_types@), ","@),
{
    EndpointNuevo {
        id: concatenar("wh_", uuid),
        secret: concatenar("whsec_", aleatorio),
        event_types: unir_textos(&dto.event_types, ","),
    }
}

/// A new endpoint for `dto`, for a tenant on `plan`: refused (403) unless the
/// plan includes webhooks; otherwise with a random UUID in its id and 24
/// random letters and digits in its secret.
pub fn crear_endpoint(dto: &CrearWebhookDto, plan: &Plan) -> (r: Result<EndpointNuevo, AppError>)
    ensures
        r is Err <==> !plan.incluye_integraciones(),
        r is Err ==> r == Err::<EndpointNuevo, AppError>(AppError::Forbidden),
        r matches Ok(e) ==> {
            &&& e.id@.len() == 39
            &&& e.id@.take(3) == "wh_"@
            &&& es_uuid_v4(e.id@.skip(3))
            &&& e.secret@.len() == 6 + LARGO_SECRETO
            &&& e.secret@.take(6) == "whsec_"@
            &&& forall|i: int| 6 <= i < 6 + LARGO_SECRETO ==> es_alfanumerico(#[trigger] e.secret@[i])
            &&& e.event_types@ == unir(vistas(dto.event_types@), ","@)
        },
{
    if !plan.permite_integraciones() {
        return Err(AppError::Forbidden);
    }
    proof {
        reveal_strlit("wh_");
        reveal_strlit("whsec_");
    }
    let u = uuid_v4();
    let s = alfanumerico_aleatorio(LARGO_SECRETO);
    let r = componer_endpoint(u.as_str(), s.as_str(), dto);
    assert(r.id@.take(3) =~= "wh_"@);
    assert(r.id@.skip(3) =~= u@);
    assert(r.secret@.take(6) =~= "whsec_"@);
    assert forall|i: int| 6 <= i < 6 + LARGO_SECRETO implies es_alfanumerico(#[trigger] r.secret@[i]) by {
        assert(r.secret@[i] == s@[i - 6]);
    }
    Ok(r)
}

} // verus!
