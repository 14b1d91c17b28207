//! Billing: the checkout link and the Stripe events that change a tenant's plan.
use vstd::prelude::*;

use crate::errors::AppError;
use crate::models::plan::Subscription;
use crate::texto::{concatenar, copiar, mismo_texto};

verus! {

/// The checkout address for a tenant: its id travels in the fragment.
pub open spec fn url_checkout_spec(tenant_id: Seq<char>) -> Seq<char> {
    "https://checkout.stripe.com/pay/session_...#tenant_id="@ + tenant_id
}

/// The checkout address of `create_checkout_session`.
pub fn create_checkout_session(tenant_id: &str) -> (r: String)
    ensures
        r@ == url_checkout_spec(tenant_id@),
        r@ == "https://checkout.stripe.com/pay/session_...#tenant_id="@ + tenant_id@,
{
    concatenar("https://checkout.stripe.com/pay/session_...#tenant_id=", tenant_id)
}

/// What the logic reads of a Stripe event: its `type`, and the
/// `data.object.metadata.tenant_id` and `data.object.customer` fields, each
/// where it is present and a string.
#[derive(Debug, PartialEq, Eq)]
pub struct EventoStripe {
    pub tipo: Option<String>,
    pub tenant_id: Option<String>,
    pub customer: Option<String>,
}

/// What an event does to a subscription.
#[derive(Debug, PartialEq, Eq)]
pub enum AccionSuscripcion {
    /// Move the tenant to the professional plan, with this Stripe customer.
    PasarAPro { tenant_id: String, customer_id: String },
    /// Move the tenant back to the basic plan.
    VolverABasico { tenant_id: String },
    /// Nothing to do for an event of this type.
    Ignorar { tipo: String },
}

/// The event types that pay for the professional plan.
pub open spec fn es_pago(tipo: Seq<char>) -> bool {
    tipo == "checkout.session.completed"@ || tipo == "invoice.paid"@
}

/// The event type that cancels the subscription.
pub open spec fn es_cancelacion(tipo: Seq<char>) -> bool {
    tipo == "customer.subscription.deleted"@
}

/// The view of an optional string field.
pub open spec fn vista_opcional(o: Option<String>) -> Option<Seq<char>> {
    match o {
        Some(s) => Some(s@),
        None => None,
    }
}

/// The action an event with these fields asks for: `a` is the action for an
/// event of type `tipo` (if a string), for tenant `tenant_id`, paid by
/// `customer`.
pub open spec fn accion_para(
    a: AccionSuscripcion,
    tipo: Option<Seq<char>>,
    tenant_id: Option<Seq<char>>,
    customer: Option<Seq<char>>,
) -> bool {
    let t = match tipo {
        Some(t) => t,
        None => Seq::<char>::empty(),
    };
    if es_pago(t) && tenant_id is Some {
        a matches AccionSuscripcion::PasarAPro { tenant_id: id, customer_id } && id@ == tenant_id->0
            && customer_id@ == match customer {
            Some(c) => c,
            None => Seq::<char>::empty(),
        }
    } else if es_cancelacion(t) && tenant_id is Some {
        a matches AccionSuscripcion::VolverABasico { tenant_id: id } && id@ == tenant_id->0
    } else {
        a matches AccionSuscripcion::Ignorar { tipo: x } && x@ == t
    }
}

/// The action for an event given as its three fields.
pub open spec fn accion_para_campos(
    a: AccionSuscripcion,
    campos: (Option<Seq<char>>, Option<Seq<char>>, Option<Seq<char>>),
) -> bool {
    accion_para(a, campos.0, campos.1, campos.2)
}

/// The action an event asks for: `a` is the action for event `e`.
pub open spec fn accion_de(a: AccionSuscripcion, e: EventoStripe) -> bool {
    accion_para(a, vista_opcional(e.tipo), vista_opcional(e.tenant_id), vista_opcional(e.customer))
}

/// What `serde_json::from_str` makes of a body, read as a Stripe event:
/// `None` where the body is not JSON, else the `type`,
/// `data.object.metadata.tenant_id` and `data.object.customer` fields,
/// each where it is present and a string.
pub uninterp spec fn campos_evento_stripe(body: Seq<char>) -> Option<
    (Option<Seq<char>>, Option<Seq<char>>, Option<Seq<char>>),
>;

/// `serde_json::from_str::<serde_json::Value>`, with the three fields the
/// logic reads picked out of the value.
/// Trusted: the result is the named reading of the body; what JSON is and
/// where the fields lie is not stated.
#[verifier::external_body]
fn leer_evento_stripe(body: &str) -> (r: Option<EventoStripe>)
    ensures
        match r {
            None => campos_evento_stripe(body@) is None,
            Some(e) => campos_evento_stripe(body@) == Some(
                (vista_opcional(e.tipo), vista_opcional(e.tenant_id), vista_opcional(e.customer)),
            ),
        },
{
    let v: serde_json::Value = serde_json::from_str(body).ok()?;
    let objeto = &v["data"]["object"];
    Some(EventoStripe {
        tipo: v["type"].as_str().map(String::from),
        tenant_id: objeto["metadata"]["tenant_id"].as_str().map(String::from),
        customer: objeto["customer"].as_str().map(String::from),
    })
}

/// The Stripe webhook on the raw body: without a signature header the call
/// is refused (401) before the body is read; a body that is not JSON is
/// "JSON inválido" (400); otherwise the event's fields decide the action.
pub fn stripe_webhook(firma_presente: bool, body: &str) -> (r: Result<
    AccionSuscripcion,
    AppError,
>)
    ensures
        !firma_presente ==> r == Err::<AccionSuscripcion, AppError>(AppError::Unauthorized),
        firma_presente && campos_evento_stripe(body@) is None ==> (r matches Err(
            AppError::ValidationError(m),
        ) && m@ == "JSON inválido"@),
        firma_presente && campos_evento_stripe(body@) is Some ==> (r matches Ok(a) && accion_para_campos(
            a,
            campos_evento_stripe(body@)->0,
        )),
{
    if !firma_presente {
        return Err(AppError::Unauthorized);
    }
    let evento = leer_evento_stripe(body);
    accion_de_evento(true, evento)
}

/// The decision of the Stripe webhook on the fields of the event: without a signature header the call
/// is refused (401); a body that is not JSON is "JSON inválido" (400);
/// otherwise the event decides the action.
pub fn accion_de_evento(firma_presente: bool, evento: Option<EventoStripe>) -> (r: Result<
    AccionSuscripcion,
    AppError,
>)
    ensures
        !firma_presente ==> r == Err::<AccionSuscripcion, AppError>(AppError::Unauthorized),
        firma_presente && evento is None ==> (r matches Err(AppError::ValidationError(m)) && m@
            == "JSON inválido"@),
        firma_presente && evento is Some ==> (r matches Ok(a) && accion_de(a, evento->0)),
        r matches Ok(a) ==> (a is PasarAPro ==> (evento matches Some(e) && e.tipo matches Some(t) && (t@
            == "checkout.session.completed"@ || t@ == "invoice.paid"@))),
        firma_presente ==> (evento matches Some(e) ==> (e.tipo matches Some(t) ==> (e.tenant_id is Some
            && t@ != "checkout.session.completed"@ && t@ != "invoice.paid"@ && t@
            != "customer.subscription.deleted"@ ==> (r matches Ok(AccionSuscripcion::Ignorar { tipo })
            && tipo@ == t@)))),
{
    if !firma_presente {
        return Err(AppError::Unauthorized);
    }
    let e = match evento {
        None => return Err(AppError::ValidationError(copiar("JSON inválido"))),
        Some(e) => e,
    };
    proof {
        reveal_strlit("checkout.session.completed");
        reveal_strlit("invoice.paid");
        assert("checkout.session.completed"@.len() > 0);
        assert("invoice.paid"@.len() > 0);
    }
    let tipo = match e.tipo {
        Some(t) => t,
        None => String::new(),
    };
    let pago = mismo_texto(tipo.as_str(), "checkout.session.completed") || mismo_texto(
        tipo.as_str(),
        "invoice.paid",
    );
    let cancelacion = mismo_texto(tipo.as_str(), "customer.subscription.deleted");
    match e.tenant_id {
        Some(t) => {
            if pago {
                let customer_id = match e.customer {
                    Some(c) => c,
                    None => String::new(),
                };
                Ok(AccionSuscripcion::PasarAPro { tenant_id: t, customer_id })
            } else if cancelacion {
                Ok(AccionSuscripcion::VolverABasico { tenant_id: t })
            } else {
                Ok(AccionSuscripcion::Ignorar { tipo })
            }
        },
        None => Ok(AccionSuscripcion::Ignorar { tipo }),
    }
}

/// What the logic sees of a subscription: tenant, plan, Stripe customer,
/// status and end of the period.
pub open spec fn vista_suscripcion(s: Subscription) -> (
    Seq<char>,
    Seq<char>,
    Option<Seq<char>>,
    Seq<char>,
    Seq<char>,
) {
    (s.tenant_id@, s.plan_id@, vista_opcional(s.stripe_customer_id), s.status@, s.periodo_fin@)
}

/// The subscription `v` after the action `a`: a payment for its tenant moves
/// it to `"PRO"`, with the paying customer, `"ACTIVE"`; a cancellation for its
/// tenant moves it to `"BASIC"`, `"CANCELED"`, and keeps the customer; any
/// other action leaves it as it was.
pub open spec fn suscripcion_tras(
    a: AccionSuscripcion,
    v: (Seq<char>, Seq<char>, Option<Seq<char>>, Seq<char>, Seq<char>),
) -> (Seq<char>, Seq<char>, Option<Seq<char>>, Seq<char>, Seq<char>) {
    match a {
        AccionSuscripcion::PasarAPro { tenant_id, customer_id } => if tenant_id@ == v.0 {
            (v.0, "PRO"@, Some(customer_id@), "ACTIVE"@, v.4)
        } else {
            v
        },
        AccionSuscripcion::VolverABasico { tenant_id } => if tenant_id@ == v.0 {
            (v.0, "BASIC"@, v.2, "CANCELED"@, v.4)
        } else {
            v
        },
        AccionSuscripcion::Ignorar { .. } => v,
    }
}

/// A Stripe event delivered twice changes a subscription no more than
/// delivered once: two actions read from the same event fields, applied one
/// after the other, leave the subscription as the first one left it.
pub proof fn ley_reenvio_sin_efecto(
    a1: AccionSuscripcion,
    a2: AccionSuscripcion,
    campos: (Option<Seq<char>>, Option<Seq<char>>, Option<Seq<char>>),
    v: (Seq<char>, Seq<char>, Option<Seq<char>>, Seq<char>, Seq<char>),
)
    requires
        accion_para_campos(a1, campos),
        accion_para_campos(a2, campos),
    ensures
        suscripcion_tras(a2, suscripcion_tras(a1, v)) == suscripcion_tras(a1, v),
{
}

impl AccionSuscripcion {
    /// The subscription `s` after this action, as `suscripcion_tras` says.
    pub fn aplicar(&self, s: Subscription) -> (r: Subscription)
        ensures
            vista_suscripcion(r) == suscripcion_tras(*self, vista_suscripcion(s)),
    {
        match self {
            AccionSuscripcion::PasarAPro { tenant_id, customer_id } => {
                if mismo_texto(tenant_id.as_str(), s.tenant_id.as_str()) {
                    Subscription {
                        tenant_id: s.tenant_id,
                        plan_id: copiar("PRO"),
                        stripe_customer_id: Some(copiar(customer_id.as_str())),
                        status: copiar("ACTIVE"),
                        periodo_fin: s.periodo_fin,
                    }
                } else {
                    s
                }
            },
            AccionSuscripcion::VolverABasico { tenant_id } => {
                if mismo_texto(tenant_id.as_str(), s.tenant_id.as_str()) {
                    Subscription {
                        tenant_id: s.tenant_id,
                        plan_id: copiar("BASIC"),
                        stripe_customer_id: s.stripe_customer_id,
                        status: copiar("CANCELED"),
                        periodo_fin: s.periodo_fin,
                    }
                } else {
                    s
                }
            },
            AccionSuscripcion::Ignorar { .. } => s,
        }
    }


    /// The plan and the status the subscription takes: `("PRO", "ACTIVE")`
    /// after a payment, `("BASIC", "CANCELED")` after a cancellation, none
    /// for an ignored event.
    pub fn plan_y_estado(&self) -> (r: Option<(String, String)>)
        ensures
            self is PasarAPro ==> (r matches Some(p) && p.0@ == "PRO"@ && p.1@ == "ACTIVE"@),
            self is VolverABasico ==> (r matches Some(p) && p.0@ == "BASIC"@ && p.1@
                == "CANCELED"@),
            self is Ignorar ==> r is None,
    {
        match self {
            AccionSuscripcion::PasarAPro { .. } => Some((copiar("PRO"), copiar("ACTIVE"))),
            AccionSuscripcion::VolverABasico { .. } => Some((copiar("BASIC"), copiar("CANCELED"))),
            AccionSuscripcion::Ignorar { .. } => None,
        }
    }
}

/// Only a completed checkout or a paid invoice moves a tenant to the
/// professional plan: an event read as a move to PRO has one of those two
/// types, and the tenant and customer it carries.
pub proof fn ley_solo_pagos_pasan_a_pro(
    a: AccionSuscripcion,
    tipo: Option<Seq<char>>,
    tenant_id: Option<Seq<char>>,
    customer: Option<Seq<char>>,
)
    requires
        accion_para(a, tipo, tenant_id, customer),
        a is PasarAPro,
    ensures
        tipo is Some,
        tipo->0 == "checkout.session.completed"@ || tipo->0 == "invoice.paid"@,
        tenant_id is Some,
        a->PasarAPro_tenant_id@ == tenant_id->0,
{
    reveal_strlit("checkout.session.completed");
    reveal_strlit("invoice.paid");
    assert("checkout.session.completed"@.len() > 0);
    assert("invoice.paid"@.len() > 0);
}

/// Any other event type with a tenant than a completed checkout, a paid
/// invoice or a deleted subscription (a failed payment, say) changes
/// nothing: it is ignored under its own type.
pub proof fn ley_otros_eventos_se_ignoran(
    a: AccionSuscripcion,
    tipo: Seq<char>,
    tenant_id: Seq<char>,
    customer: Option<Seq<char>>,
)
    requires
        accion_para(a, Some(tipo), Some(tenant_id), customer),
        tipo != "checkout.session.completed"@,
        tipo != "invoice.paid"@,
        tipo != "customer.subscription.deleted"@,
    ensures
        a is Ignorar,
        a->Ignorar_tipo@ == tipo,
{
}

/// A deleted subscription with a tenant moves that tenant back to the basic
/// plan.
pub proof fn ley_cancelacion_vuelve_a_basico(
    a: AccionSuscripcion,
    tenant_id: Seq<char>,
    customer: Option<Seq<char>>,
)
    requires
        accion_para(a, Some("customer.subscription.deleted"@), Some(tenant_id), customer),
    ensures
        a is VolverABasico,
        a->VolverABasico_tenant_id@ == tenant_id,
{
    reveal_strlit("checkout.session.completed");
    reveal_strlit("invoice.paid");
    reveal_strlit("customer.subscription.deleted");
    assert("customer.subscription.deleted"@.len() != "checkout.session.completed"@.len());
    assert("customer.subscription.deleted"@.len() != "invoice.paid"@.len());
}

/// The checkout link carries the whole tenant id: it is the fixed checkout
/// address followed by the tenant id, so what follows the address is exactly
/// the tenant id.
pub proof fn ley_checkout_lleva_el_tenant(tenant_id: Seq<char>)
    ensures
        url_checkout_spec(tenant_id) == "https://checkout.stripe.com/pay/session_...#tenant_id="@
            + tenant_id,
        url_checkout_spec(tenant_id).skip(
            "https://checkout.stripe.com/pay/session_...#tenant_id="@.len() as int,
        ) == tenant_id,
        url_checkout_spec(tenant_id).len() == "https://checkout.stripe.com/pay/session_...#tenant_id="@.len()
            + tenant_id.len(),
{
    assert(url_checkout_spec(tenant_id).skip(
        "https://checkout.stripe.com/pay/session_...#tenant_id="@.len() as int,
    ) =~= tenant_id);
}

/// A payment moves its own tenant's subscription to `"PRO"`, `"ACTIVE"`,
/// with the paying customer, and keeps the tenant and the end of the period;
/// a cancellation moves it to `"BASIC"`, `"CANCELED"`, and keeps the
/// customer; neither touches another tenant's subscription, and an ignored
/// event touches none.
pub proof fn ley_efecto_en_la_suscripcion(
    a: AccionSuscripcion,
    v: (Seq<char>, Seq<char>, Option<Seq<char>>, Seq<char>, Seq<char>),
)
    ensures
        a matches AccionSuscripcion::PasarAPro { tenant_id, customer_id } ==> (tenant_id@ == v.0
            ==> suscripcion_tras(a, v) == (v.0, "PRO"@, Some(customer_id@), "ACTIVE"@, v.4)),
        a matches AccionSuscripcion::VolverABasico { tenant_id } ==> (tenant_id@ == v.0
            ==> suscripcion_tras(a, v) == (v.0, "BASIC"@, v.2, "CANCELED"@, v.4)),
        a matches AccionSuscripcion::PasarAPro { tenant_id, .. } ==> (tenant_id@ != v.0
            ==> suscripcion_tras(a, v) == v),
        a matches AccionSuscripcion::VolverABasico { tenant_id } ==> (tenant_id@ != v.0
            ==> suscripcion_tras(a, v) == v),
        a is Ignorar ==> suscripcion_tras(a, v) == v,
{
}

} // verus!
