use pispas_reservation::errors::AppError;

#[test]
fn status_codes_follow_the_taxonomy() {
    assert_eq!(AppError::Validation("x".to_string()).status_code(), 400);
    assert_eq!(AppError::validation_field("campo", "m").status_code(), 400);
    assert_eq!(AppError::Unauthorized("x".to_string()).status_code(), 401);
    assert_eq!(AppError::unauthorized_operation("op", "r").status_code(), 401);
    assert_eq!(AppError::NotFound("x".to_string()).status_code(), 404);
    assert_eq!(AppError::not_found_id("Mesa", "7").status_code(), 404);
    assert_eq!(AppError::Conflict("x".to_string()).status_code(), 409);
    assert_eq!(AppError::Internal("x".to_string()).status_code(), 500);
    assert_eq!(AppError::database("op", "m").status_code(), 500);
    assert_eq!(AppError::internal_trace("m", None).status_code(), 500);
}

#[test]
fn constructors_keep_their_fields() {
    match AppError::database("buscar", "sin conexión") {
        AppError::Database { operation, message } => {
            assert_eq!(operation, "buscar");
            assert_eq!(message, "sin conexión");
        }
        _ => panic!("wrong variant"),
    }
    match AppError::validation_field("email", "sin arroba") {
        AppError::ValidationWithField { field, message } => {
            assert_eq!(field, "email");
            assert_eq!(message, "sin arroba");
        }
        _ => panic!("wrong variant"),
    }
    match AppError::unauthorized_operation("borrar", "no es tuyo") {
        AppError::UnauthorizedWithContext { operation, reason } => {
            assert_eq!(operation, "borrar");
            assert_eq!(reason, "no es tuyo");
        }
        _ => panic!("wrong variant"),
    }
    match AppError::not_found_id("Mesa", "7") {
        AppError::NotFoundWithId { resource_type, id } => {
            assert_eq!(resource_type, "Mesa");
            assert_eq!(id, "7");
        }
        _ => panic!("wrong variant"),
    }
}

#[test]
fn internal_trace_keeps_or_draws_the_trace_id() {
    match AppError::internal_trace("falló", Some("trace-9".to_string())) {
        AppError::InternalWithTrace { trace_id, message } => {
            assert_eq!(trace_id, "trace-9");
            assert_eq!(message, "falló");
        }
        _ => panic!("wrong variant"),
    }
    match AppError::internal_trace("falló", None) {
        AppError::InternalWithTrace { trace_id, .. } => {
            assert_eq!(trace_id.len(), 36);
        }
        _ => panic!("wrong variant"),
    }
}

#[test]
fn responses_label_each_error_class() {
    let r = AppError::validation_field("email", "sin arroba").error_response();
    assert_eq!(r.error, "Error de validación");
    assert_eq!(r.message, "Campo 'email': sin arroba");

    let r = AppError::Validation("Email inválido".to_string()).error_response();
    assert_eq!(r.error, "Error de validación");
    assert_eq!(r.message, "Email inválido");

    let r = AppError::unauthorized_operation("borrar", "no es tuyo").error_response();
    assert_eq!(r.error, "No autorizado");
    assert_eq!(r.message, "Operación 'borrar': no es tuyo");

    let r = AppError::not_found_id("Mesa", "7").error_response();
    assert_eq!(r.error, "No encontrado");
    assert_eq!(r.message, "Mesa con ID '7' no encontrado");

    let r = AppError::Conflict("ya existe".to_string()).error_response();
    assert_eq!(r.error, "Conflicto");
    assert_eq!(r.message, "ya existe");

    let r = AppError::internal_trace("falló", Some("trace-9".to_string())).error_response();
    assert_eq!(r.error, "Error interno");
    assert_eq!(r.message, "Error interno (trace: trace-9)");
}

#[test]
fn internal_detail_never_reaches_the_client() {
    let r = AppError::database("buscar_mesa", "conexión rechazada en el puerto 27017")
        .error_response();
    assert_eq!(r.error, "Error de base de datos");
    assert_eq!(r.message, "Error interno del servidor");

    let r = AppError::Internal("ruta interna /var/db".to_string()).error_response();
    assert_eq!(r.error, "Error interno");
    assert_eq!(r.message, "Error interno del servidor");
}
