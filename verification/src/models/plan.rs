//! The subscription plans and a tenant's subscription.
use vstd::prelude::*;

use crate::texto::{copiar, mismo_texto};

verus! {

/// A plan: what a tenant may do and how much.
#[derive(Debug, PartialEq, Eq)]
pub struct Plan {
    pub id: String,
    pub nombre: String,
    pub limite_productos: i32,
    pub limite_ventas_mes: i32,
    pub bi_activo: bool,
    pub predictivo_activo: bool,
}

/// A tenant's subscription to a plan.
#[derive(Debug, PartialEq, Eq)]
pub struct Subscription {
    pub tenant_id: String,
    pub plan_id: String,
    pub stripe_customer_id: Option<String>,
    pub status: String,
    pub periodo_fin: String,
}

impl Plan {
    /// `self` is the basic plan.
    pub open spec fn es_basico(self) -> bool {
        &&& self.id@ == "BASIC"@
        &&& self.nombre@ == "Plan Básico"@
        &&& self.limite_productos == 50
        &&& self.limite_ventas_mes == 100
        &&& !self.bi_activo
        &&& !self.predictivo_activo
    }

    /// `self` is the professional plan.
    pub open spec fn es_pro(self) -> bool {
        &&& self.id@ == "PRO"@
        &&& self.nombre@ == "Plan Profesional"@
        &&& self.limite_productos == 99999
        &&& self.limite_ventas_mes == 99999
        &&& self.bi_activo
        &&& self.predictivo_activo
    }

    /// `self` is the plan that the id `id` stands for: `"PRO"` the
    /// professional plan, any other id the basic one.
    pub open spec fn es_plan_de(self, id: Seq<char>) -> bool {
        if id == "PRO"@ {
            self.es_pro()
        } else {
            self.es_basico()
        }
    }

    /// The plan includes API keys and webhooks: only the professional plan does.
    pub open spec fn incluye_integraciones(self) -> bool {
        self.id@ == "PRO"@
    }

    /// Whether the plan includes API keys and webhooks.
    pub fn permite_integraciones(&self) -> (r: bool)
        ensures
            r == self.incluye_integraciones(),
    {
        mismo_texto(self.id.as_str(), "PRO")
    }

    /// The basic plan.
    pub fn get_basic() -> (r: Self)
        ensures
            r.es_basico(),
    {
        Self {
            id: copiar("BASIC"),
            nombre: copiar("Plan Básico"),
            limite_productos: 50,
            limite_ventas_mes: 100,
            bi_activo: false,
            predictivo_activo: false,
        }
    }

    /// The professional plan.
    pub fn get_pro() -> (r: Self)
        ensures
            r.es_pro(),
    {
        Self {
            id: copiar("PRO"),
            nombre: copiar("Plan Profesional"),
            limite_productos: 99999,
            limite_ventas_mes: 99999,
            bi_activo: true,
            predictivo_activo: true,
        }
    }

    /// The plan of an id: `"PRO"` the professional plan, anything else the basic one.
    pub fn from_id(id: &str) -> (r: Self)
        ensures
            r.es_plan_de(id@),
    {
        if mismo_texto(id, "PRO") {
            Self::get_pro()
        } else {
            Self::get_basic()
        }
    }
}

/// Each plan is the plan of its own id: looking a plan up by the id of the
/// basic or of the professional plan gives that plan back.
pub proof fn ley_plan_de_su_id(p: Plan)
    requires
        p.es_basico() || p.es_pro(),
    ensures
        p.es_plan_de(p.id@),
{
    reveal_strlit("BASIC");
    reveal_strlit("PRO");
    assert("BASIC"@.len() == 5);
    assert("PRO"@.len() == 3);
}

/// The professional plan allows at least what the basic plan allows, and
/// only the professional plan includes API keys and webhooks.
pub proof fn ley_pro_supera_basico(basico: Plan, pro: Plan)
    requires
        basico.es_basico(),
        pro.es_pro(),
    ensures
        pro.limite_productos >= basico.limite_productos,
        pro.limite_ventas_mes >= basico.limite_ventas_mes,
        basico.bi_activo ==> pro.bi_activo,
        basico.predictivo_activo ==> pro.predictivo_activo,
        pro.incluye_integraciones(),
        !basico.incluye_integraciones(),
{
    reveal_strlit("BASIC");
    reveal_strlit("PRO");
    assert("BASIC"@.len() == 5);
    assert("PRO"@.len() == 3);
}

} // verus!
