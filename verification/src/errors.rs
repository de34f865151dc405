//! The errors of the pipeline and how each is shown to a client.

use vstd::prelude::*;

verus! {

/// What can go wrong. Each variant but the last carries a detail in words.
#[derive(Debug, Clone, PartialEq, Eq)]
pub enum AppError {
    /// The store could not be reached or refused a write.
    DatabaseError(String),
    /// A call to the provider failed.
    AIError(String),
    /// The provider refused a configuration.
    ConfigError(String),
    /// A request was malformed.
    ValidationError(String),
    /// A document or an answer of the model could not be read.
    ParseError(String),
    /// A reconfiguration came without the flag that allows it to destroy
    /// what is stored.
    SafetyGuardError,
}

/// The status of a malformed request.
pub const STATUS_BAD_REQUEST: u16 = 400;

/// The status of a reconfiguration that lacks its flag.
pub const STATUS_FORBIDDEN: u16 = 403;

/// The status of every other failure.
pub const STATUS_INTERNAL_SERVER_ERROR: u16 = 500;

impl AppError {
    /// The error in words, detail included.
    pub open spec fn display(self) -> Seq<char> {
        match self {
            AppError::DatabaseError(detail) => "Database error: "@ + detail@,
            AppError::AIError(detail) => "AI Provider error: "@ + detail@,
            AppError::ConfigError(detail) => "Configuration error: "@ + detail@,
            AppError::ValidationError(detail) => "Validation error: "@ + detail@,
            AppError::ParseError(detail) => "Parsing error: "@ + detail@,
            AppError::SafetyGuardError => "Admin operation requires force flag"@,
        }
    }

    /// The HTTP status that answers a request which ended in this error.
    pub open spec fn status(self) -> u16 {
        match self {
            AppError::ValidationError(_) => STATUS_BAD_REQUEST,
            AppError::SafetyGuardError => STATUS_FORBIDDEN,
            _ => STATUS_INTERNAL_SERVER_ERROR,
        }
    }

    /// What a client is told. The client's own mistakes are named in full;
    /// of a failure inside, which may quote a provider's secrets, nothing
    /// but that it happened.
    pub open spec fn public_message(self) -> Seq<char> {
        match self {
            AppError::ValidationError(_) => self.display(),
            AppError::SafetyGuardError => self.display(),
            _ => "Internal Error"@,
        }
    }

    /// The error in words, detail included.
    pub fn to_string(&self) -> (s: String)
        ensures
            s@ == self.display(),
    {
        match self {
            AppError::DatabaseError(detail) => String::from_str("Database error: ").concat(
                detail.as_str(),
            ),
            AppError::AIError(detail) => String::from_str("AI Provider error: ").concat(
                detail.as_str(),
            ),
            AppError::ConfigError(detail) => String::from_str("Configuration error: ").concat(
                detail.as_str(),
            ),
            AppError::ValidationError(detail) => String::from_str("Validation error: ").concat(
                detail.as_str(),
            ),
            AppError::ParseError(detail) => String::from_str("Parsing error: ").concat(
                detail.as_str(),
            ),
            AppError::SafetyGuardError => String::from_str("Admin operation requires force flag"),
        }
    }

    /// The HTTP status that answers a request which ended in this error: 400
    /// for a malformed request, 403 for a reconfiguration without its flag,
    /// 500 for everything else.
    pub fn status_code(&self) -> (code: u16)
        ensures
            code == self.status(),
            code == 400 <==> self is ValidationError,
            code == 403 <==> self is SafetyGuardError,
            code == 500 <==> !(self is ValidationError || self is SafetyGuardError),
    {
        match self {
            AppError::ValidationError(_) => STATUS_BAD_REQUEST,
            AppError::SafetyGuardError => STATUS_FORBIDDEN,
            _ => STATUS_INTERNAL_SERVER_ERROR,
        }
    }

    /// The message of the response.
    pub fn response_message(&self) -> (message: String)
        ensures
            message@ == self.public_message(),
    {
        match self {
            AppError::ValidationError(_) => self.to_string(),
            AppError::SafetyGuardError => self.to_string(),
            _ => String::from_str("Internal Error"),
        }
    }
}

} // verus!
