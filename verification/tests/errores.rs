use inventario::errors::{AppError, ErrorResponse};

#[test]
fn codigos_y_estados() {
    let casos = vec![
        (AppError::NotFound("x".into()), 404, "NOT_FOUND", "Recurso no encontrado: x"),
        (AppError::ValidationError("y".into()), 400, "VALIDATION_ERROR", "Error de validación: y"),
        (AppError::Conflict("z".into()), 409, "CONFLICT", "Conflicto: z"),
        (AppError::Database, 500, "DATABASE_ERROR", "Error de base de datos"),
        (AppError::Unauthorized, 401, "UNAUTHORIZED", "No autorizado"),
        (AppError::Forbidden, 403, "FORBIDDEN", "Acceso prohibido"),
    ];
    for (e, estado, codigo, mensaje) in casos {
        assert_eq!(e.status(), estado);
        assert_eq!(e.get_code(), codigo);
        assert_eq!(e.mensaje(), mensaje);
        assert_eq!(
            e.into_response(),
            (estado, ErrorResponse { error: mensaje.to_string(), code: codigo.to_string() })
        );
    }
}

#[test]
fn codigos_distintos_por_clase() {
    let errores = vec![
        AppError::NotFound(String::new()),
        AppError::ValidationError(String::new()),
        AppError::Conflict(String::new()),
        AppError::Database,
        AppError::Unauthorized,
        AppError::Forbidden,
    ];
    for (i, a) in errores.iter().enumerate() {
        for (j, b) in errores.iter().enumerate() {
            if i != j {
                assert_ne!(a.get_code(), b.get_code());
                assert_ne!(a.status(), b.status());
            }
        }
    }
}
