use vstd::prelude::*;
use vstd::string::StringExecFns;

verus! {

/// The error taxonomy of the service.
///
/// The wire-visible status codes conflate some kinds on purpose (a register
/// conflict and a malformed login both answer 400), but the kinds stay
/// distinguishable here so that callers, logs and tests can tell them apart.
#[derive(Debug, Clone, Copy, PartialEq, Eq, Structural)]
pub enum ApiError {
    NotFound,
    InternalServerError,
    InvalidToken,
    WrongCredentials,
    MissingCredentials,
    TokenCreation,
    AdminRequired,
    Forbidden,
    Conflict,
    ConfigurationError,
    NotValid,
}

impl ApiError {
    /// The HTTP status code that the boundary answers for this error.
    pub open spec fn status_code_spec(self) -> u16 {
        match self {
            ApiError::NotValid => 400,
            ApiError::InvalidToken => 400,
            ApiError::MissingCredentials => 400,
            ApiError::Conflict => 400,
            ApiError::WrongCredentials => 401,
            ApiError::AdminRequired => 403,
            ApiError::Forbidden => 403,
            ApiError::NotFound => 404,
            ApiError::InternalServerError => 500,
            ApiError::TokenCreation => 500,
            ApiError::ConfigurationError => 500,
        }
    }

    /// The fixed message paired with the status code. Internal detail is
    /// never leaked to the client.
    pub open spec fn message_spec(self) -> Seq<char> {
        match self {
            ApiError::NotValid => "Bad request"@,
            ApiError::InvalidToken => "Bad request"@,
            ApiError::MissingCredentials => "Bad request"@,
            ApiError::Conflict => "Bad request"@,
            ApiError::WrongCredentials => "Wrong credentials"@,
            ApiError::AdminRequired => "Forbidden"@,
            ApiError::Forbidden => "Forbidden"@,
            ApiError::NotFound => "Not found"@,
            ApiError::InternalServerError => "Internal server error"@,
            ApiError::TokenCreation => "Internal server error"@,
            ApiError::ConfigurationError => "Internal server error"@,
        }
    }

    pub fn status_code(&self) -> (r: u16)
        ensures
            r == self.status_code_spec(),
    {
        match self {
            ApiError::NotValid => 400,
            ApiError::InvalidToken => 400,
            ApiError::MissingCredentials => 400,
            ApiError::Conflict => 400,
            ApiError::WrongCredentials => 401,
            ApiError::AdminRequired => 403,
            ApiError::Forbidden => 403,
            ApiError::NotFound => 404,
            ApiError::InternalServerError => 500,
            ApiError::TokenCreation => 500,
            ApiError::ConfigurationError => 500,
        }
    }

    pub fn message(&self) -> (r: String)
        ensures
            r@ == self.message_spec(),
    {
        match self {
            ApiError::NotValid => String::from_str("Bad request"),
            ApiError::InvalidToken => String::from_str("Bad request"),
            ApiError::MissingCredentials => String::from_str("Bad request"),
            ApiError::Conflict => String::from_str("Bad request"),
            ApiError::WrongCredentials => String::from_str("Wrong credentials"),
            ApiError::AdminRequired => String::from_str("Forbidden"),
            ApiError::Forbidden => String::from_str("Forbidden"),
            ApiError::NotFound => String::from_str("Not found"),
            ApiError::InternalServerError => String::from_str("Internal server error"),
            ApiError::TokenCreation => String::from_str("Internal server error"),
            ApiError::ConfigurationError => String::from_str("Internal server error"),
        }
    }

    /// The status line and message of a response, as the HTTP boundary
    /// renders them.
    pub fn response_parts(&self) -> (r: (u16, String))
        ensures
            r.0 == self.status_code_spec(),
            r.1@ == self.message_spec(),
    {
        (self.status_code(), self.message())
    }
}

} // verus!
