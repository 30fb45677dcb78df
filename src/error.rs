use vstd::prelude::*;

verus! {

/// Everything that can go wrong in a call to the API.
#[derive(Debug)]
pub enum ClientError {
    Authentication { message: String, status_code: u16 },
    NotFound { message: String, status_code: u16 },
    Validation { message: String, status_code: u16 },
    RateLimit { message: String, status_code: u16 },
    Api { message: String, status_code: u16 },
    Network(reqwest::Error),
    Json(serde_json::Error),
    InvalidApiKey,
    MissingApiKey,
    Timeout,
}

pub type Result<T> = core::result::Result<T, ClientError>;

pub const AUTHENTICATION_MESSAGE: &'static str = "Authentication failed. Check your API key.";
pub const NOT_FOUND_MESSAGE: &'static str = "Resource not found";
pub const VALIDATION_MESSAGE: &'static str = "Request validation failed. Check your parameters.";
pub const RATE_LIMIT_MESSAGE: &'static str = "Rate limit exceeded. Please slow down your requests.";

/// What `ClientError::from_status_code(status_code, upstream)` is: the four statuses
/// with a type of their own carry the library's fixed message, every other
/// status carries the upstream message; all carry the status.
pub open spec fn is_status_error(e: ClientError, status_code: u16, upstream: Seq<char>) -> bool {
    match e {
        ClientError::Authentication { message, status_code: s } =>
            status_code == 401 && s == 401 && message@ == AUTHENTICATION_MESSAGE@,
        ClientError::NotFound { message, status_code: s } =>
            status_code == 404 && s == 404 && message@ == NOT_FOUND_MESSAGE@,
        ClientError::Validation { message, status_code: s } =>
            status_code == 422 && s == 422 && message@ == VALIDATION_MESSAGE@,
        ClientError::RateLimit { message, status_code: s } =>
            status_code == 429 && s == 429 && message@ == RATE_LIMIT_MESSAGE@,
        ClientError::Api { message, status_code: s } =>
            status_code != 401 && status_code != 404 && status_code != 422 && status_code != 429
                && s == status_code && message@ == upstream,
        _ => false,
    }
}

impl ClientError {
    /// Maps a failing HTTP status and the upstream message to a typed error.
    pub fn from_status_code(status_code: u16, message: String) -> (r: ClientError)
        ensures
            is_status_error(r, status_code, message@),
    {
        match status_code {
            401 => ClientError::Authentication {
                message: AUTHENTICATION_MESSAGE.to_string(),
                status_code,
            },
            404 => ClientError::NotFound { message: NOT_FOUND_MESSAGE.to_string(), status_code },
            422 => ClientError::Validation { message: VALIDATION_MESSAGE.to_string(), status_code },
            429 => ClientError::RateLimit { message: RATE_LIMIT_MESSAGE.to_string(), status_code },
            _ => ClientError::Api { message, status_code },
        }
    }
}

} // verus!
