use vstd::prelude::*;
use vstd::string::to_string_from_display_ensures;

verus! {

/// The closed set of failure kinds.
#[derive(Debug, Clone, Copy, PartialEq, Eq, Structural)]
pub enum AppErrorType {
    DbError,
    NotFoundError,
}

/// A failure, as raised at the point where it happened.
///
/// `message` is what the client may see; `cause` is for the log only.
#[derive(Debug)]
pub struct AppError {
    pub message: Option<String>,
    pub cause: Option<String>,
    pub error_type: AppErrorType,
}

/// The JSON body sent to the client for a failure.
#[derive(Debug)]
pub struct AppErrorResponse {
    pub error: String,
}

pub open spec fn generic_message() -> Seq<char> {
    "An unexpected error has occurred"@
}

pub open spec fn not_found_message() -> Seq<char> {
    "The requested item was not found"@
}

/// HTTP status of a server-side failure.
pub const INTERNAL_SERVER_ERROR: u16 = 500;

/// HTTP status of a missing resource.
pub const NOT_FOUND: u16 = 404;

/// HTTP status of a successful request.
pub const OK: u16 = 200;

impl AppError {
    /// The message shown to the client: an explicit message wins, then the
    /// default of the kind, then the generic one.
    pub open spec fn resolved_message(&self) -> Seq<char> {
        match self.message {
            Some(m) => m@,
            None => match self.error_type {
                AppErrorType::NotFoundError => not_found_message(),
                AppErrorType::DbError => generic_message(),
            },
        }
    }

    pub open spec fn status_of(&self) -> u16 {
        match self.error_type {
            AppErrorType::DbError => INTERNAL_SERVER_ERROR,
            AppErrorType::NotFoundError => NOT_FOUND,
        }
    }

    /// A failure of the database layer whose cause is `cause`.
    pub open spec fn is_db_error_with_cause(&self, cause: Seq<char>) -> bool {
        &&& self.message is None
        &&& self.cause matches Some(c) && c@ == cause
        &&& self.error_type == AppErrorType::DbError
    }

    pub fn message(&self) -> (r: String)
        ensures
            r@ == self.resolved_message(),
    {
        match &self.message {
            Some(message) => message.clone(),
            None => match self.error_type {
                AppErrorType::NotFoundError => "The requested item was not found".to_string(),
                AppErrorType::DbError => "An unexpected error has occurred".to_string(),
            },
        }
    }

    /// A database failure carrying the text of `error` as its cause.
    pub fn db_error<T: std::fmt::Display + ?Sized>(error: &T) -> (r: AppError)
        ensures
            r.message is None,
            r.error_type == AppErrorType::DbError,
            r.cause matches Some(c) && to_string_from_display_ensures::<T>(error, c),
    {
        AppError { message: None, cause: Some(error.to_string()), error_type: AppErrorType::DbError }
    }

    pub fn status_code(&self) -> (r: u16)
        ensures
            r == self.status_of(),
    {
        match self.error_type {
            AppErrorType::DbError => INTERNAL_SERVER_ERROR,
            AppErrorType::NotFoundError => NOT_FOUND,
        }
    }

    /// The body sent to the client: the resolved message, never the cause.
    pub fn error_response(&self) -> (r: AppErrorResponse)
        ensures
            r.error@ == self.resolved_message(),
    {
        AppErrorResponse { error: self.message() }
    }
}

} // verus!
