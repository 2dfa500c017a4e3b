use vstd::prelude::*;

verus! {

/// Failure of an operation of the authentication core.
///
/// Each variant carries the text that is shown to the caller; the boundary
/// layer maps the variant to a transport status with `status_code`.
#[derive(Debug, Clone, PartialEq, Eq)]
pub enum AuthError {
    NotFound { id: String },
    InternalServerError { message: String },
    ValidationError { message: String },
    DatabaseError { message: String },
    Conflict { message: String },
    Unauthorized { message: String },
}

/// The text carried by an error, whatever its variant.
pub open spec fn error_text(e: AuthError) -> Seq<char> {
    match e {
        AuthError::NotFound { id } => id@,
        AuthError::InternalServerError { message } => message@,
        AuthError::ValidationError { message } => message@,
        AuthError::DatabaseError { message } => message@,
        AuthError::Conflict { message } => message@,
        AuthError::Unauthorized { message } => message@,
    }
}

/// The transport status of each variant.
pub open spec fn status_of(e: AuthError) -> u16 {
    match e {
        AuthError::NotFound { .. } => 404,
        AuthError::ValidationError { .. } => 400,
        AuthError::Unauthorized { .. } => 401,
        AuthError::Conflict { .. } => 409,
        AuthError::DatabaseError { .. } => 500,
        AuthError::InternalServerError { .. } => 500,
    }
}

impl AuthError {
    pub fn not_found(id: &str) -> (r: AuthError)
        ensures
            r is NotFound,
            error_text(r) == id@,
    {
        AuthError::NotFound { id: String::from_str(id) }
    }

    pub fn validation(message: &str) -> (r: AuthError)
        ensures
            r is ValidationError,
            error_text(r) == message@,
    {
        AuthError::ValidationError { message: String::from_str(message) }
    }

    pub fn unauthorized(message: &str) -> (r: AuthError)
        ensures
            r is Unauthorized,
            error_text(r) == message@,
    {
        AuthError::Unauthorized { message: String::from_str(message) }
    }

    pub fn conflict(message: &str) -> (r: AuthError)
        ensures
            r is Conflict,
            error_text(r) == message@,
    {
        AuthError::Conflict { message: String::from_str(message) }
    }

    pub fn database(message: &str) -> (r: AuthError)
        ensures
            r is DatabaseError,
            error_text(r) == message@,
    {
        AuthError::DatabaseError { message: String::from_str(message) }
    }

    pub fn internal(message: &str) -> (r: AuthError)
        ensures
            r is InternalServerError,
            error_text(r) == message@,
    {
        AuthError::InternalServerError { message: String::from_str(message) }
    }

    /// The numeric transport status (404, 400, 401, 409 or 500).
    pub fn status_code(&self) -> (r: u16)
        ensures
            r == status_of(*self),
    {
        match self {
            AuthError::NotFound { .. } => 404,
            AuthError::ValidationError { .. } => 400,
            AuthError::Unauthorized { .. } => 401,
            AuthError::Conflict { .. } => 409,
            AuthError::DatabaseError { .. } => 500,
            AuthError::InternalServerError { .. } => 500,
        }
    }

    /// The machine-readable code of the variant.
    pub fn error_code(&self) -> (r: &'static str)
        ensures
            self is NotFound ==> r@ == "NOT_FOUND"@,
            self is ValidationError ==> r@ == "VALIDATION_ERROR"@,
            self is Unauthorized ==> r@ == "UNAUTHORIZED"@,
            self is Conflict ==> r@ == "CONFLICT"@,
            self is DatabaseError ==> r@ == "DATABASE_ERROR"@,
            self is InternalServerError ==> r@ == "INTERNAL_SERVER_ERROR"@,
    {
        match self {
            AuthError::NotFound { .. } => "NOT_FOUND",
            AuthError::ValidationError { .. } => "VALIDATION_ERROR",
            AuthError::Unauthorized { .. } => "UNAUTHORIZED",
            AuthError::Conflict { .. } => "CONFLICT",
            AuthError::DatabaseError { .. } => "DATABASE_ERROR",
            AuthError::InternalServerError { .. } => "INTERNAL_SERVER_ERROR",
        }
    }

    /// Storage and internal failures are logged at error severity; the
    /// others only for the audit trail.
    pub fn should_log(&self) -> (r: bool)
        ensures
            r == (self is DatabaseError || self is InternalServerError),
    {
        match self {
            AuthError::DatabaseError { .. } => true,
            AuthError::InternalServerError { .. } => true,
            _ => false,
        }
    }

    /// The human-readable description: a prefix naming the variant, then its text.
    pub fn describe(&self) -> (r: String)
        ensures
            self is NotFound ==> r@ == "User with identifier '"@ + error_text(*self) + "' not found"@,
            self is InternalServerError ==> r@ == "Internal server error: "@ + error_text(*self),
            self is ValidationError ==> r@ == "Validation failed: "@ + error_text(*self),
            self is DatabaseError ==> r@ == "Database operation failed: "@ + error_text(*self),
            self is Conflict ==> r@ == "Resource conflict: "@ + error_text(*self),
            self is Unauthorized ==> r@ == "Unauthorized: "@ + error_text(*self),
    {
        match self {
            AuthError::NotFound { id } => {
                String::from_str("User with identifier '").concat(id.as_str()).concat("' not found")
            },
            AuthError::InternalServerError { message } => {
                String::from_str("Internal server error: ").concat(message.as_str())
            },
            AuthError::ValidationError { message } => {
                String::from_str("Validation failed: ").concat(message.as_str())
            },
            AuthError::DatabaseError { message } => {
                String::from_str("Database operation failed: ").concat(message.as_str())
            },
            AuthError::Conflict { message } => {
                String::from_str("Resource conflict: ").concat(message.as_str())
            },
            AuthError::Unauthorized { message } => {
                String::from_str("Unauthorized: ").concat(message.as_str())
            },
        }
    }
}

} // verus!
