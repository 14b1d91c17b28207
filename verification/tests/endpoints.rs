use inventario::auth::{hash_api_key, Claims};
use inventario::db::url_base_datos;
use inventario::errors::AppError;
use inventario::handlers::api_keys::{componer_api_key, generar_api_key, LARGO_LLAVE};
use inventario::handlers::api_v2::productos::listar_v2;
use inventario::handlers::auth_handlers::{login, plan_o_basico};
use inventario::handlers::billing::{
    accion_de_evento, create_checkout_session, stripe_webhook, AccionSuscripcion, EventoStripe,
};
use inventario::handlers::facturas::{
    buscar_venta, disposicion_factura, encabezado_factura, nombre_producto, titulo_factura,
};
use inventario::handlers::inventario::{nuevo_stock, registrar_movimiento};
use inventario::auth::{auth_middleware_inicio, auth_middleware_tras_consulta, PasoAuth};
use inventario::handlers::reportes::{
    consulta_reporte_productos, id_corto, periodo_reporte_ventas, FiltrosProducto, FiltrosVentas,
};
use inventario::handlers::usuarios::validar_rol;
use inventario::handlers::webhooks::{componer_endpoint, crear_endpoint, LARGO_SECRETO};
use inventario::models::api_key::{ApiKey, CrearApiKeyDto};
use inventario::models::plan::{Plan, Subscription};
use inventario::models::usuario::Usuario;
use inventario::models::webhook::CrearWebhookDto;
use inventario::models::NuevoMovimiento;

fn es_uuid_v4(s: &str) -> bool {
    let c: Vec<char> = s.chars().collect();
    c.len() == 36
        && c.iter().enumerate().all(|(i, ch)| {
            if [8, 13, 18, 23].contains(&i) {
                *ch == '-'
            } else {
                ch.is_ascii_hexdigit() && !ch.is_ascii_uppercase()
            }
        })
        && c[14] == '4'
        && "89ab".contains(c[19])
}

fn mov(cantidad: i64) -> NuevoMovimiento {
    NuevoMovimiento { producto_id: "p1".into(), cantidad, motivo: None }
}

#[test]
fn stock_entrada_y_salida() {
    assert_eq!(nuevo_stock(5, "entrada", 3), Ok(8));
    assert_eq!(nuevo_stock(5, "salida", 3), Ok(2));
    assert_eq!(nuevo_stock(5, "salida", 5), Ok(0));
    assert_eq!(
        nuevo_stock(5, "salida", 6),
        Err(AppError::ValidationError("Stock insuficiente".into()))
    );
    assert_eq!(nuevo_stock(5, "ajuste", 2), Ok(3));
    assert_eq!(nuevo_stock(0, "entrada", -1), Err(AppError::ValidationError("Stock insuficiente".into())));
}

#[test]
fn entrada_y_salida_se_anulan() {
    let tras_entrada = nuevo_stock(10, "entrada", 7).unwrap();
    assert_eq!(nuevo_stock(tras_entrada, "salida", 7), Ok(10));
}

#[test]
fn movimiento_de_producto_inexistente() {
    assert_eq!(
        registrar_movimiento(None, "entrada", &mov(1)),
        Err(AppError::NotFound("Producto no encontrado".into()))
    );
    assert_eq!(registrar_movimiento(Some(4), "salida", &mov(4)), Ok(0));
}

#[test]
fn llave_compuesta() {
    let dto = CrearApiKeyDto { nombre: "n".into(), scopes: vec!["products:read".into(), "sales:write".into()] };
    let k = componer_api_key("id1".into(), "clave".into(), &dto);
    assert_eq!(k.id, "id1");
    assert_eq!(k.raw_key, "clave");
    assert_eq!(k.hashed_key, hash_api_key("sk_clave"));
    assert_ne!(k.hashed_key, hash_api_key("clave"));
    assert_ne!(k.hashed_key, "clave");
    assert_eq!(k.hashed_key.len(), 64);
    assert!(k.hashed_key.chars().all(|c| c.is_ascii_digit() || ('a'..='f').contains(&c)));
    assert_eq!(k.scopes, "products:read,sales:write");
    let r = k.respuesta();
    assert_eq!(r.id, "id1");
    assert_eq!(r.key, "sk_clave");
}

#[test]
fn llave_generada() {
    let dto = CrearApiKeyDto { nombre: "n".into(), scopes: vec!["a".into()] };
    let k = generar_api_key(&dto, &Plan::get_pro()).unwrap();
    assert!(es_uuid_v4(&k.id));
    assert_eq!(k.raw_key.chars().count(), LARGO_LLAVE);
    assert!(k.raw_key.chars().all(|c| c.is_ascii_alphanumeric()));
    let entregada = k.respuesta().key;
    assert_eq!(entregada, format!("sk_{}", k.raw_key));
    assert_eq!(k.hashed_key, hash_api_key(&entregada));
    assert_eq!(k.hashed_key.len(), 64);
    assert_ne!(k.hashed_key, entregada);
    let otra = generar_api_key(&dto, &Plan::get_pro()).unwrap();
    assert_ne!(k.raw_key, otra.raw_key);
}

#[test]
fn llave_creada_tiene_sus_scopes() {
    let dto = CrearApiKeyDto { nombre: "n".into(), scopes: vec!["products:read".into(), "sales:write".into()] };
    let k = generar_api_key(&dto, &Plan::get_pro()).unwrap();
    let guardada = ApiKey {
        id: k.id.clone(),
        tenant_id: "t".into(),
        nombre: "n".into(),
        hashed_key: k.hashed_key.clone(),
        scopes: k.scopes.clone(),
        creado_en: "hoy".into(),
        ultima_vez_usada: None,
    };
    assert!(guardada.tiene_scope("products:read"));
    assert!(guardada.tiene_scope("sales:write"));
    assert!(!guardada.tiene_scope("products:write"));
}

#[test]
fn endpoint_compuesto_y_generado() {
    let dto = CrearWebhookDto { url: "https://x".into(), event_types: vec!["sale.created".into(), "stock.low".into()] };
    let e = componer_endpoint("u", "s", &dto);
    assert_eq!(e.id, "wh_u");
    assert_eq!(e.secret, "whsec_s");
    assert_eq!(e.event_types, "sale.created,stock.low");
    assert_eq!(crear_endpoint(&dto, &Plan::get_basic()), Err(AppError::Forbidden));
    let g = crear_endpoint(&dto, &Plan::get_pro()).unwrap();
    assert!(g.id.starts_with("wh_"));
    assert!(es_uuid_v4(&g.id[3..]));
    assert!(g.secret.starts_with("whsec_"));
    assert_eq!(g.secret.len(), 6 + LARGO_SECRETO);
    assert!(g.secret[6..].chars().all(|c| c.is_ascii_alphanumeric()));
}

fn claims(rol: &str, scopes: Option<&str>) -> Claims {
    Claims { sub: "s".into(), tenant_id: "t".into(), rol: rol.into(), scopes: scopes.map(String::from), exp: 0 }
}

#[test]
fn scope_de_productos_v2() {
    assert_eq!(listar_v2(&claims("usuario", None)), Ok(()));
    assert_eq!(listar_v2(&claims("api_key", Some("products:read"))), Ok(()));
    assert_eq!(listar_v2(&claims("api_key", Some("x,*"))), Ok(()));
    assert_eq!(listar_v2(&claims("api_key", Some("sales:write"))), Err(AppError::Forbidden));
    assert_eq!(listar_v2(&claims("api_key", None)), Err(AppError::Forbidden));
    assert_eq!(listar_v2(&claims("api_key", Some("products:readonly"))), Err(AppError::Forbidden));
    assert_eq!(listar_v2(&claims("api_key", Some("a*"))), Err(AppError::Forbidden));
    assert_eq!(listar_v2(&claims("api_key", Some(" products:read "))), Ok(()));
    assert_eq!(listar_v2(&claims("api_key", Some("sales:write,products:read"))), Ok(()));
}

fn usuario(hash: &str) -> Usuario {
    Usuario {
        id: "u1".into(),
        username: "ana".into(),
        password_hash: hash.into(),
        rol: "admin".into(),
        creado_en: "hoy".into(),
    }
}

#[test]
fn login_con_bcrypt() {
    let hash = bcrypt::hash("secreta", 4).unwrap();
    assert_eq!(login(Some(usuario(&hash)), "secreta"), Some(Ok(usuario(&hash))));
    assert_eq!(login(Some(usuario(&hash)), "otra"), Some(Err(AppError::Unauthorized)));
    assert_eq!(login(None, "secreta"), Some(Err(AppError::Unauthorized)));
    assert_eq!(login(Some(usuario("no-es-un-hash")), "secreta"), None);
}

#[test]
fn plan_por_defecto_en_login() {
    assert_eq!(plan_o_basico(None), "BASIC");
    assert_eq!(plan_o_basico(Some("PRO".into())), "PRO");
}

#[test]
fn checkout_lleva_el_tenant() {
    assert_eq!(
        create_checkout_session("t-42"),
        "https://checkout.stripe.com/pay/session_...#tenant_id=t-42"
    );
}

fn evento(tipo: Option<&str>, tenant: Option<&str>, customer: Option<&str>) -> Option<EventoStripe> {
    Some(EventoStripe {
        tipo: tipo.map(String::from),
        tenant_id: tenant.map(String::from),
        customer: customer.map(String::from),
    })
}

#[test]
fn webhook_de_stripe() {
    assert_eq!(accion_de_evento(false, evento(Some("invoice.paid"), Some("t"), None)), Err(AppError::Unauthorized));
    assert_eq!(accion_de_evento(true, None), Err(AppError::ValidationError("JSON inválido".into())));
    assert_eq!(
        accion_de_evento(true, evento(Some("checkout.session.completed"), Some("t1"), Some("cus_1"))),
        Ok(AccionSuscripcion::PasarAPro { tenant_id: "t1".into(), customer_id: "cus_1".into() })
    );
    assert_eq!(
        accion_de_evento(true, evento(Some("invoice.paid"), Some("t1"), None)),
        Ok(AccionSuscripcion::PasarAPro { tenant_id: "t1".into(), customer_id: "".into() })
    );
    assert_eq!(
        accion_de_evento(true, evento(Some("customer.subscription.deleted"), Some("t2"), Some("c"))),
        Ok(AccionSuscripcion::VolverABasico { tenant_id: "t2".into() })
    );
    assert_eq!(
        accion_de_evento(true, evento(Some("invoice.paid"), None, None)),
        Ok(AccionSuscripcion::Ignorar { tipo: "invoice.paid".into() })
    );
    assert_eq!(
        accion_de_evento(true, evento(None, Some("t"), None)),
        Ok(AccionSuscripcion::Ignorar { tipo: "".into() })
    );
    assert_eq!(
        accion_de_evento(true, evento(Some("charge.refunded"), Some("t"), None)),
        Ok(AccionSuscripcion::Ignorar { tipo: "charge.refunded".into() })
    );
}

#[test]
fn plan_y_estado_de_cada_accion() {
    let pro = AccionSuscripcion::PasarAPro { tenant_id: "t".into(), customer_id: "c".into() };
    assert_eq!(pro.plan_y_estado(), Some(("PRO".into(), "ACTIVE".into())));
    let basico = AccionSuscripcion::VolverABasico { tenant_id: "t".into() };
    assert_eq!(basico.plan_y_estado(), Some(("BASIC".into(), "CANCELED".into())));
    assert_eq!(AccionSuscripcion::Ignorar { tipo: "x".into() }.plan_y_estado(), None);
}

#[test]
fn factura() {
    let ids: Vec<String> = vec!["a".into(), "b".into(), "a".into()];
    assert_eq!(buscar_venta(&ids, "a"), Ok(0));
    assert_eq!(buscar_venta(&ids, "b"), Ok(1));
    assert_eq!(buscar_venta(&ids, "c"), Err(AppError::NotFound("Venta no encontrada".into())));
    assert_eq!(buscar_venta(&vec![], "a"), Err(AppError::NotFound("Venta no encontrada".into())));
    assert_eq!(nombre_producto(None), "Producto Desconocido");
    assert_eq!(nombre_producto(Some("Café".into())), "Café");
    assert_eq!(titulo_factura("v1"), "Factura - v1");
    assert_eq!(disposicion_factura("v1"), "attachment; filename=\"factura_v1.pdf\"");
}

#[test]
fn consulta_de_productos() {
    let todos = FiltrosProducto { solo_stock_bajo: None, stock_minimo: Some(3) };
    assert_eq!(consulta_reporte_productos(&todos), "SELECT * FROM productos WHERE 1=1 ORDER BY nombre");
    let no = FiltrosProducto { solo_stock_bajo: Some(false), stock_minimo: None };
    assert_eq!(consulta_reporte_productos(&no), "SELECT * FROM productos WHERE 1=1 ORDER BY nombre");
    let bajo = FiltrosProducto { solo_stock_bajo: Some(true), stock_minimo: None };
    assert_eq!(
        consulta_reporte_productos(&bajo),
        "SELECT * FROM productos WHERE 1=1 AND stock_actual <= 5 ORDER BY nombre"
    );
    let negativo = FiltrosProducto { solo_stock_bajo: Some(true), stock_minimo: Some(-12) };
    assert_eq!(
        consulta_reporte_productos(&negativo),
        "SELECT * FROM productos WHERE 1=1 AND stock_actual <= -12 ORDER BY nombre"
    );
}

#[test]
fn periodo_de_ventas() {
    let f = FiltrosVentas { mes: Some(3), anio: Some(2024) };
    assert_eq!(periodo_reporte_ventas(&f, 1999, 12), ("2024-03".to_string(), "2024-03%".to_string()));
    let vacio = FiltrosVentas { mes: None, anio: None };
    assert_eq!(periodo_reporte_ventas(&vacio, 2025, 11), ("2025-11".to_string(), "2025-11%".to_string()));
    let raro = FiltrosVentas { mes: Some(123), anio: Some(7) };
    assert_eq!(periodo_reporte_ventas(&raro, 0, 0).0, format!("{:04}-{:02}", 7, 123));
    let negativo = FiltrosVentas { mes: Some(1), anio: Some(-5) };
    assert_eq!(periodo_reporte_ventas(&negativo, 0, 0).0, format!("{:04}-{:02}", -5, 1));
}

#[test]
fn id_corto_de_venta() {
    assert_eq!(id_corto("123456789abc"), "12345678");
    assert_eq!(id_corto("corto"), "corto");
}

#[test]
fn roles_asignables() {
    assert_eq!(validar_rol("admin"), Ok(()));
    assert_eq!(validar_rol("usuario"), Ok(()));
    assert_eq!(validar_rol("superadmin"), Err(AppError::ValidationError("Rol inválido".into())));
    assert_eq!(validar_rol(""), Err(AppError::ValidationError("Rol inválido".into())));
}

#[test]
fn url_de_base_de_datos() {
    assert_eq!(url_base_datos(None), "sqlite:inventario.db?mode=rwc");
    assert_eq!(url_base_datos(Some("sqlite::memory:".into())), "sqlite::memory:");
}

#[test]
fn webhook_de_stripe_desde_el_cuerpo() {
    let pago = r#"{"type":"checkout.session.completed","data":{"object":{"customer":"cus_9","metadata":{"tenant_id":"t7"}}}}"#;
    assert_eq!(
        stripe_webhook(true, pago),
        Ok(AccionSuscripcion::PasarAPro { tenant_id: "t7".into(), customer_id: "cus_9".into() })
    );
    assert_eq!(stripe_webhook(false, pago), Err(AppError::Unauthorized));
    let baja = r#"{"type":"customer.subscription.deleted","data":{"object":{"metadata":{"tenant_id":"t8"}}}}"#;
    assert_eq!(
        stripe_webhook(true, baja),
        Ok(AccionSuscripcion::VolverABasico { tenant_id: "t8".into() })
    );
    let sin_tenant = r#"{"type":"invoice.paid","data":{"object":{"customer":"c"}}}"#;
    assert_eq!(
        stripe_webhook(true, sin_tenant),
        Ok(AccionSuscripcion::Ignorar { tipo: "invoice.paid".into() })
    );
    let tipo_numerico = r#"{"type":5,"data":{"object":{"metadata":{"tenant_id":"t"}}}}"#;
    assert_eq!(
        stripe_webhook(true, tipo_numerico),
        Ok(AccionSuscripcion::Ignorar { tipo: "".into() })
    );
    assert_eq!(
        stripe_webhook(true, "no es json"),
        Err(AppError::ValidationError("JSON inválido".into()))
    );
}

#[test]
fn llave_con_scope_de_lectura_lista_productos() {
    let ak = ApiKey {
        id: "k".into(),
        tenant_id: "t".into(),
        nombre: "n".into(),
        hashed_key: "h".into(),
        scopes: "sales:write,  products:read ".into(),
        creado_en: "hoy".into(),
        ultima_vez_usada: None,
    };
    assert!(ak.tiene_scope("products:read"));
    let c = inventario::auth::claims_de_api_key(ak);
    assert_eq!(listar_v2(&c), Ok(()));
}

#[test]
fn plan_basico_no_crea_llaves() {
    let dto = CrearApiKeyDto { nombre: "n".into(), scopes: vec!["a".into()] };
    assert_eq!(generar_api_key(&dto, &Plan::get_basic()), Err(AppError::Forbidden));
    assert_eq!(generar_api_key(&dto, &Plan::from_id("BASIC")), Err(AppError::Forbidden));
    assert!(generar_api_key(&dto, &Plan::from_id("PRO")).is_ok());
}

#[test]
fn llave_entregada_autentica() {
    let dto = CrearApiKeyDto { nombre: "n".into(), scopes: vec!["products:read".into()] };
    let k = generar_api_key(&dto, &Plan::get_pro()).unwrap();
    let entregada = k.respuesta().key;
    let hash = match auth_middleware_inicio(Some(&entregada), None) {
        PasoAuth::ConsultarApiKey(h) => h,
        otro => panic!("paso inesperado: {:?}", otro),
    };
    assert_eq!(hash, k.hashed_key);
    let guardada = ApiKey {
        id: k.id.clone(),
        tenant_id: "t".into(),
        nombre: "n".into(),
        hashed_key: k.hashed_key.clone(),
        scopes: k.scopes.clone(),
        creado_en: "hoy".into(),
        ultima_vez_usada: None,
    };
    match auth_middleware_tras_consulta(Some(guardada), None) {
        PasoAuth::Aceptar(c) => {
            assert_eq!(c.sub, k.id);
            assert_eq!(c.rol, "api_key");
            assert_eq!(listar_v2(&c), Ok(()));
        }
        otro => panic!("paso inesperado: {:?}", otro),
    }
}

fn suscripcion(tenant: &str) -> Subscription {
    Subscription {
        tenant_id: tenant.into(),
        plan_id: "BASIC".into(),
        stripe_customer_id: None,
        status: "ACTIVE".into(),
        periodo_fin: "2025-01-31".into(),
    }
}

#[test]
fn acciones_sobre_la_suscripcion() {
    let pro = AccionSuscripcion::PasarAPro { tenant_id: "t1".into(), customer_id: "cus_1".into() };
    let s = pro.aplicar(suscripcion("t1"));
    assert_eq!(s.plan_id, "PRO");
    assert_eq!(s.status, "ACTIVE");
    assert_eq!(s.stripe_customer_id, Some("cus_1".into()));
    assert_eq!(s.periodo_fin, "2025-01-31");
    let otra = pro.aplicar(suscripcion("t2"));
    assert_eq!(otra, suscripcion("t2"));
    let baja = AccionSuscripcion::VolverABasico { tenant_id: "t1".into() };
    let b = baja.aplicar(s);
    assert_eq!(b.plan_id, "BASIC");
    assert_eq!(b.status, "CANCELED");
    assert_eq!(b.stripe_customer_id, Some("cus_1".into()));
    let nada = AccionSuscripcion::Ignorar { tipo: "x".into() };
    assert_eq!(nada.aplicar(suscripcion("t1")), suscripcion("t1"));
}

#[test]
fn evento_repetido_no_cambia_mas() {
    let pago = r#"{"type":"invoice.paid","data":{"object":{"customer":"cus_9","metadata":{"tenant_id":"t7"}}}}"#;
    let a1 = stripe_webhook(true, pago).unwrap();
    let a2 = stripe_webhook(true, pago).unwrap();
    let una = a1.aplicar(suscripcion("t7"));
    let dos = a2.aplicar(a1.aplicar(suscripcion("t7")));
    assert_eq!(una, dos);
}

#[test]
fn kardex_de_una_secuencia() {
    let mut stock: i64 = 0;
    let mut suma: i64 = 0;
    for (tipo, cantidad) in [("entrada", 10), ("salida", 4), ("ajuste", 3), ("entrada", 2)] {
        stock = nuevo_stock(stock, tipo, cantidad).unwrap();
        suma += if tipo == "entrada" { cantidad } else { -cantidad };
        assert_eq!(stock, suma);
    }
    assert_eq!(stock, 5);
    assert_eq!(
        nuevo_stock(stock, "salida", 6),
        Err(AppError::ValidationError("Stock insuficiente".into()))
    );
}

#[test]
fn encabezado_de_factura_en_mayusculas() {
    assert_eq!(encabezado_factura("ab12-cd"), "FACTURA DE VENTA N°: AB12-CD");
    assert_eq!(encabezado_factura(""), "FACTURA DE VENTA N°: ");
}
