use inventario::auth::{
    auth_middleware_inicio, auth_middleware_tras_consulta, auth_middleware_tras_jwt,
    claims_de_api_key, claims_de_sesion, hash_api_key, require_admin, require_superadmin,
    secreto_jwt, token_bearer, Claims, PasoAuth, PROHIBIDO, SEGUNDOS_SESION,
};
use inventario::auth::{create_jwt, sesion_vigente, verificar_jwt};
use inventario::models::api_key::ApiKey;

fn claims(rol: &str) -> Claims {
    Claims {
        sub: "u1".into(),
        tenant_id: "t1".into(),
        rol: rol.into(),
        scopes: None,
        exp: 0,
    }
}

fn llave() -> ApiKey {
    ApiKey {
        id: "k1".into(),
        tenant_id: "t9".into(),
        nombre: "integracion".into(),
        hashed_key: hash_api_key("abc"),
        scopes: "products:read".into(),
        creado_en: "2024-01-01".into(),
        ultima_vez_usada: None,
    }
}

#[test]
fn hash_de_llave_es_sha256_en_hex() {
    assert_eq!(
        hash_api_key("abc"),
        "ba7816bf8f01cfea414140de5dae2223b00361a396177a9cb410ff61f20015ad"
    );
    assert_eq!(
        hash_api_key(""),
        "e3b0c44298fc1c149afbf4c8996fb92427ae41e4649b934ca495991b7852b855"
    );
}

#[test]
fn sesion_expira_en_24_horas() {
    let c = claims_de_sesion("u7", "t3", "admin", 1_700_000_000);
    assert_eq!(c.sub, "u7");
    assert_eq!(c.tenant_id, "t3");
    assert_eq!(c.rol, "admin");
    assert_eq!(c.scopes, None);
    assert_eq!(c.exp, 1_700_086_400);
    assert_eq!(SEGUNDOS_SESION, 24 * 3600);
}

#[test]
fn secreto_por_defecto() {
    assert_eq!(secreto_jwt(None), "secret");
    assert_eq!(secreto_jwt(Some("otro".into())), "otro");
}

#[test]
fn token_bearer_quita_el_prefijo() {
    assert_eq!(token_bearer("Bearer abc.def"), Some("abc.def".to_string()));
    assert_eq!(token_bearer("Bearer "), Some(String::new()));
    assert_eq!(token_bearer("bearer abc"), None);
    assert_eq!(token_bearer("Basic xyz"), None);
}

#[test]
fn middleware_consulta_la_llave_primero() {
    assert_eq!(
        auth_middleware_inicio(Some("abc"), Some("Bearer t")),
        PasoAuth::ConsultarApiKey(hash_api_key("abc"))
    );
    assert_eq!(auth_middleware_inicio(None, Some("Bearer t")), PasoAuth::VerificarJwt("t".into()));
    assert_eq!(auth_middleware_inicio(None, Some("Token t")), PasoAuth::Rechazar);
    assert_eq!(auth_middleware_inicio(None, None), PasoAuth::Rechazar);
}

#[test]
fn middleware_tras_consulta() {
    let esperado = Claims {
        sub: "k1".into(),
        tenant_id: "t9".into(),
        rol: "api_key".into(),
        scopes: Some("products:read".into()),
        exp: 0,
    };
    assert_eq!(claims_de_api_key(llave()), esperado);
    assert_eq!(auth_middleware_tras_consulta(Some(llave()), None), PasoAuth::Aceptar(esperado));
    assert_eq!(
        auth_middleware_tras_consulta(None, Some("Bearer jwt")),
        PasoAuth::VerificarJwt("jwt".into())
    );
    assert_eq!(auth_middleware_tras_consulta(None, None), PasoAuth::Rechazar);
}

#[test]
fn middleware_tras_jwt() {
    assert_eq!(auth_middleware_tras_jwt(Some(claims("usuario")), 60), PasoAuth::Aceptar(claims("usuario")));
    assert_eq!(auth_middleware_tras_jwt(Some(claims("usuario")), 61), PasoAuth::Rechazar);
    assert_eq!(auth_middleware_tras_jwt(None, 0), PasoAuth::Rechazar);
}

#[test]
fn roles_de_administracion() {
    assert_eq!(require_admin(&claims("admin")), Ok(()));
    assert_eq!(require_admin(&claims("superadmin")), Ok(()));
    assert_eq!(require_admin(&claims("usuario")), Err(PROHIBIDO));
    assert_eq!(require_admin(&claims("api_key")), Err(403));
    assert_eq!(require_superadmin(&claims("superadmin")), Ok(()));
    assert_eq!(require_superadmin(&claims("admin")), Err(403));
}

#[test]
fn superadmin_tambien_es_admin() {
    let c = claims("superadmin");
    assert!(require_superadmin(&c).is_ok());
    assert!(require_admin(&c).is_ok());
}

#[test]
fn llave_nunca_pasa_como_admin() {
    let c = claims_de_api_key(llave());
    assert_eq!(require_admin(&c), Err(403));
    assert_eq!(require_superadmin(&c), Err(403));
}

#[test]
fn hash_de_llave_tiene_64_hex_minusculas() {
    for k in ["", "sk_x", "una llave larga con espacios y ñ"] {
        let h = hash_api_key(k);
        assert_eq!(h.len(), 64);
        assert!(h.chars().all(|c| c.is_ascii_digit() || ('a'..='f').contains(&c)));
    }
}

#[test]
fn sesion_vigente_con_margen() {
    let mut c = claims("admin");
    c.exp = 1_000;
    assert!(sesion_vigente(&c, 1_060));
    assert!(!sesion_vigente(&c, 1_061));
    assert!(sesion_vigente(&c, -5));
    assert!(sesion_vigente(&c, 0));
}

#[test]
fn token_de_sesion_ida_y_vuelta() {
    let t0: i64 = 1_700_000_000;
    let token = create_jwt("u1", "t1", "admin", t0, "secreto").unwrap();
    assert_eq!(token.split('.').count(), 3);
    match verificar_jwt(&token, "secreto", t0 + 3_600) {
        PasoAuth::Aceptar(d) => {
            assert_eq!(d.sub, "u1");
            assert_eq!(d.tenant_id, "t1");
            assert_eq!(d.rol, "admin");
            assert_eq!(d.scopes, None);
            assert_eq!(d.exp, (t0 + SEGUNDOS_SESION) as usize);
        }
        otro => panic!("paso inesperado: {:?}", otro),
    }
    assert!(matches!(verificar_jwt(&token, "secreto", t0 + SEGUNDOS_SESION + 60), PasoAuth::Aceptar(_)));
    assert_eq!(verificar_jwt(&token, "secreto", t0 + SEGUNDOS_SESION + 61), PasoAuth::Rechazar);
    assert_eq!(verificar_jwt(&token, "otro", t0), PasoAuth::Rechazar);
    assert_eq!(verificar_jwt("no.es.token", "secreto", t0), PasoAuth::Rechazar);
    let mut alterado = token.clone();
    alterado.push('x');
    assert_eq!(verificar_jwt(&alterado, "secreto", t0), PasoAuth::Rechazar);
}

#[test]
fn sesion_decodificada_pasa_con_sus_claims() {
    let c = claims_de_sesion("u1", "t1", "admin", 1_000);
    match auth_middleware_tras_jwt(Some(c), 1_000) {
        PasoAuth::Aceptar(d) => {
            assert_eq!(d.sub, "u1");
            assert_eq!(d.tenant_id, "t1");
            assert_eq!(d.rol, "admin");
            assert_eq!(d.scopes, None);
            assert_eq!(d.exp, 1_000 + SEGUNDOS_SESION as usize);
        }
        otro => panic!("paso inesperado: {:?}", otro),
    }
}
