//! Application-level errors.
//!
//! Every operation of the library reports its failures through [`AppError`].
//! The taxonomy follows the HTTP status codes the server answers with:
//! validation errors (400), authorization errors (401), missing resources
//! (404), uniqueness conflicts (409) and internal/storage failures (500).

use vstd::prelude::*;

verus! {

/// The error type shared by every operation of the library.
#[derive(Debug)]
pub enum AppError {
    /// A storage-level failure, with the name of the failing operation.
    Database { operation: String, message: String },
    /// Malformed input, naming the offending field.
    ValidationWithField { field: String, message: String },
    /// Malformed input.
    Validation(String),
    /// Missing or mismatched credentials, with the attempted operation.
    UnauthorizedWithContext { operation: String, reason: String },
    /// Missing or mismatched credentials.
    Unauthorized(String),
    /// A resource that does not exist, by type and identifier.
    NotFoundWithId { resource_type: String, id: String },
    /// A resource that does not exist, or a state guard that failed.
    NotFound(String),
    /// A uniqueness or slot violation.
    Conflict(String),
    /// An internal failure carrying a trace identifier.
    InternalWithTrace { trace_id: String, message: String },
    /// An internal failure.
    Internal(String),
}

pub type AppResult<T> = Result<T, AppError>;

impl AppError {
    /// True of the errors answered with status 400.
    pub open spec fn is_validation(&self) -> bool {
        self matches AppError::Validation(_) || self matches AppError::ValidationWithField { .. }
    }

    /// True of the errors answered with status 401.
    pub open spec fn is_unauthorized(&self) -> bool {
        self matches AppError::Unauthorized(_) || self matches AppError::UnauthorizedWithContext {
            ..
        }
    }

    /// True of the errors answered with status 404.
    pub open spec fn is_not_found(&self) -> bool {
        self matches AppError::NotFound(_) || self matches AppError::NotFoundWithId { .. }
    }

    /// True of the errors answered with status 409.
    pub open spec fn is_conflict(&self) -> bool {
        self matches AppError::Conflict(_)
    }

    /// True of the errors answered with status 500.
    pub open spec fn is_internal(&self) -> bool {
        self matches AppError::Internal(_) || self matches AppError::InternalWithTrace { .. }
            || self matches AppError::Database { .. }
    }

    /// The HTTP status code that this error is answered with.
    pub open spec fn spec_status_code(&self) -> u16 {
        if self.is_validation() {
            400
        } else if self.is_unauthorized() {
            401
        } else if self.is_not_found() {
            404
        } else if self.is_conflict() {
            409
        } else {
            500
        }
    }

    pub fn database(operation: &str, message: &str) -> (e: AppError)
        ensures
            e matches AppError::Database { operation: op, message: msg } && op@ == operation@
                && msg@ == message@,
    {
        AppError::Database {
            operation: String::from_str(operation),
            message: String::from_str(message),
        }
    }

    pub fn validation_field(field: &str, message: &str) -> (e: AppError)
        ensures
            e matches AppError::ValidationWithField { field: f, message: msg } && f@ == field@
                && msg@ == message@,
    {
        AppError::ValidationWithField {
            field: String::from_str(field),
            message: String::from_str(message),
        }
    }

    pub fn unauthorized_operation(operation: &str, reason: &str) -> (e: AppError)
        ensures
            e matches AppError::UnauthorizedWithContext { operation: op, reason: r } && op@
                == operation@ && r@ == reason@,
    {
        AppError::UnauthorizedWithContext {
            operation: String::from_str(operation),
            reason: String::from_str(reason),
        }
    }

    pub fn not_found_id(resource_type: &str, id: &str) -> (e: AppError)
        ensures
            e matches AppError::NotFoundWithId { resource_type: rt, id: i } && rt@
                == resource_type@ && i@ == id@,
    {
        AppError::NotFoundWithId {
            resource_type: String::from_str(resource_type),
            id: String::from_str(id),
        }
    }

    /// Builds an internal error; when no trace identifier is given, a fresh
    /// one is drawn.
    pub fn internal_trace(message: &str, trace_id: Option<String>) -> (e: AppError)
        ensures
            e matches AppError::InternalWithTrace { trace_id: t, message: msg } && msg@
                == message@ && (trace_id matches Some(given) ==> t == given) && (trace_id is None
                ==> t@.len() == 36),
    {
        let t = match trace_id {
            Some(given) => given,
            None => crate::token::uuid_v4_string(),
        };
        AppError::InternalWithTrace { trace_id: t, message: String::from_str(message) }
    }

    /// The HTTP status code that this error is answered with.
    pub fn status_code(&self) -> (code: u16)
        ensures
            code == self.spec_status_code(),
    {
        match self {
            AppError::Database { .. } => 500,
            AppError::ValidationWithField { .. } => 400,
            AppError::Validation(_) => 400,
            AppError::UnauthorizedWithContext { .. } => 401,
            AppError::Unauthorized(_) => 401,
            AppError::NotFoundWithId { .. } => 404,
            AppError::NotFound(_) => 404,
            AppError::Conflict(_) => 409,
            AppError::InternalWithTrace { .. } => 500,
            AppError::Internal(_) => 500,
        }
    }
}

/// The body of an error answer: a short label and a human-readable message.
pub struct ErrorResponse {
    pub error: String,
    pub message: String,
}

/// The label of the answer built for each error.
pub open spec fn spec_response_error(e: &AppError) -> Seq<char> {
    match e {
        AppError::Database { .. } => "Error de base de datos"@,
        AppError::ValidationWithField { .. } => "Error de validación"@,
        AppError::Validation(_) => "Error de validación"@,
        AppError::UnauthorizedWithContext { .. } => "No autorizado"@,
        AppError::Unauthorized(_) => "No autorizado"@,
        AppError::NotFoundWithId { .. } => "No encontrado"@,
        AppError::NotFound(_) => "No encontrado"@,
        AppError::Conflict(_) => "Conflicto"@,
        AppError::InternalWithTrace { .. } => "Error interno"@,
        AppError::Internal(_) => "Error interno"@,
    }
}

/// The message of the answer built for each error. Internal and storage
/// failures answer with a generic text: their detail stays on the server.
pub open spec fn spec_response_message(e: &AppError) -> Seq<char> {
    match e {
        AppError::Database { .. } => "Error interno del servidor"@,
        AppError::ValidationWithField { field, message } => "Campo '"@ + field@ + "': "@
            + message@,
        AppError::Validation(m) => m@,
        AppError::UnauthorizedWithContext { operation, reason } => "Operación '"@ + operation@
            + "': "@ + reason@,
        AppError::Unauthorized(m) => m@,
        AppError::NotFoundWithId { resource_type, id } => resource_type@ + " con ID '"@ + id@
            + "' no encontrado"@,
        AppError::NotFound(m) => m@,
        AppError::Conflict(m) => m@,
        AppError::InternalWithTrace { trace_id, .. } => "Error interno (trace: "@ + trace_id@
            + ")"@,
        AppError::Internal(_) => "Error interno del servidor"@,
    }
}

impl AppError {
    /// Shapes the answer sent to the client for this error: the status code
    /// is given by [`AppError::status_code`], the body by this function.
    pub fn error_response(&self) -> (r: ErrorResponse)
        ensures
            r.error@ == spec_response_error(self),
            r.message@ == spec_response_message(self),
    {
        match self {
            AppError::Database { .. } => ErrorResponse {
                error: String::from_str("Error de base de datos"),
                message: String::from_str("Error interno del servidor"),
            },
            AppError::ValidationWithField { field, message } => ErrorResponse {
                error: String::from_str("Error de validación"),
                message: String::from_str("Campo '").concat(field.as_str()).concat("': ").concat(
                    message.as_str(),
                ),
            },
            AppError::Validation(m) => ErrorResponse {
                error: String::from_str("Error de validación"),
                message: m.clone(),
            },
            AppError::UnauthorizedWithContext { operation, reason } => ErrorResponse {
                error: String::from_str("No autorizado"),
                message: String::from_str("Operación '").concat(operation.as_str()).concat(
                    "': ",
                ).concat(reason.as_str()),
            },
            AppError::Unauthorized(m) => ErrorResponse {
                error: String::from_str("No autorizado"),
                message: m.clone(),
            },
            AppError::NotFoundWithId { resource_type, id } => ErrorResponse {
                error: String::from_str("No encontrado"),
                message: resource_type.clone().concat(" con ID '").concat(id.as_str()).concat(
                    "' no encontrado",
                ),
            },
            AppError::NotFound(m) => ErrorResponse {
                error: String::from_str("No encontrado"),
                message: m.clone(),
            },
            AppError::Conflict(m) => ErrorResponse {
                error: String::from_str("Conflicto"),
                message: m.clone(),
            },
            AppError::InternalWithTrace { trace_id, .. } => ErrorResponse {
                error: String::from_str("Error interno"),
                message: String::from_str("Error interno (trace: ").concat(
                    trace_id.as_str(),
                ).concat(")"),
            },
            AppError::Internal(_) => ErrorResponse {
                error: String::from_str("Error interno"),
                message: String::from_str("Error interno del servidor"),
            },
        }
    }
}

} // verus!
