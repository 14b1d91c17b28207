use inventario::models::api_key::ApiKey;
use inventario::models::plan::Plan;
use inventario::models::responses::{ApiListResponse, ApiResponse, Meta};

fn llave(scopes: &str) -> ApiKey {
    ApiKey {
        id: "k".into(),
        tenant_id: "t".into(),
        nombre: "n".into(),
        hashed_key: "h".into(),
        scopes: scopes.into(),
        creado_en: "hoy".into(),
        ultima_vez_usada: None,
    }
}

#[test]
fn tiene_scope_por_piezas() {
    let k = llave("products:read, sales:write");
    assert!(k.tiene_scope("products:read"));
    assert!(k.tiene_scope("sales:write"));
    assert!(!k.tiene_scope("sales"));
    assert!(!k.tiene_scope("products:read, sales:write"));
    assert!(!k.tiene_scope("*"));
}

#[test]
fn tiene_scope_casos_limite() {
    assert!(llave("").tiene_scope(""));
    assert!(!llave("").tiene_scope("a"));
    assert!(llave("a,,b").tiene_scope(""));
    assert!(llave(" a \t").tiene_scope("a"));
}

#[test]
fn plan_basico() {
    let p = Plan::get_basic();
    assert_eq!(p.id, "BASIC");
    assert_eq!(p.nombre, "Plan Básico");
    assert_eq!(p.limite_productos, 50);
    assert_eq!(p.limite_ventas_mes, 100);
    assert!(!p.bi_activo);
    assert!(!p.predictivo_activo);
}

#[test]
fn plan_pro() {
    let p = Plan::get_pro();
    assert_eq!(p.id, "PRO");
    assert_eq!(p.nombre, "Plan Profesional");
    assert_eq!(p.limite_productos, 99999);
    assert_eq!(p.limite_ventas_mes, 99999);
    assert!(p.bi_activo);
    assert!(p.predictivo_activo);
}

#[test]
fn plan_desde_id() {
    assert_eq!(Plan::from_id("PRO"), Plan::get_pro());
    assert_eq!(Plan::from_id("BASIC"), Plan::get_basic());
    assert_eq!(Plan::from_id("ENTERPRISE"), Plan::get_basic());
    assert_eq!(Plan::from_id("pro"), Plan::get_basic());
    assert_eq!(Plan::from_id(""), Plan::get_basic());
}

#[test]
fn plan_de_su_propio_id() {
    for p in [Plan::get_basic(), Plan::get_pro()] {
        assert_eq!(Plan::from_id(&p.id), p);
    }
}

#[test]
fn pro_supera_basico() {
    let (b, p) = (Plan::get_basic(), Plan::get_pro());
    assert!(p.limite_productos >= b.limite_productos);
    assert!(p.limite_ventas_mes >= b.limite_ventas_mes);
}

#[test]
fn respuestas() {
    assert_eq!(ApiResponse::new(3).data, 3);
    let l = ApiListResponse::new(vec!["a", "b", "c"]);
    assert_eq!(l.meta, Meta { total: 3 });
    assert_eq!(l.data, vec!["a", "b", "c"]);
    let v: ApiListResponse<u8> = ApiListResponse::new(vec![]);
    assert_eq!(v.meta.total, 0);
}

#[test]
fn solo_pro_incluye_integraciones() {
    assert!(Plan::get_pro().permite_integraciones());
    assert!(!Plan::get_basic().permite_integraciones());
    assert!(!Plan::from_id("ENTERPRISE").permite_integraciones());
}
