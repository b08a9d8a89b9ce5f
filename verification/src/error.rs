//! The failure taxonomy shared by the request pipeline and the pagination
//! engine, and the classification of HTTP status codes into it.
use vstd::prelude::*;
use vstd::string::StringExecFns;

verus! {

/// A specific kind of API error, derived from the HTTP status code.
#[derive(Debug, Clone, Copy, PartialEq, Eq, Structural)]
pub enum KnownApiError {
    /// The provided API key is invalid or has expired (HTTP 401).
    Unauthorized,
    /// The requested resource could not be found (HTTP 404).
    NotFound,
    /// A parameter in the request was invalid or missing (HTTP 400).
    InvalidParameter,
    /// The API rate limit has been exceeded (HTTP 429).
    RateLimitExceeded,
    /// No user is associated with the provided API key (HTTP 501).
    /// This is specific to the `client_credentials` grant type.
    NoUserAssociatedWithApiKey,
}

/// The error kind that the taxonomy assigns to an HTTP status code, if any.
pub open spec fn kind_for_status(status: u16) -> Option<KnownApiError> {
    if status == 400 {
        Some(KnownApiError::InvalidParameter)
    } else if status == 401 {
        Some(KnownApiError::Unauthorized)
    } else if status == 404 {
        Some(KnownApiError::NotFound)
    } else if status == 429 {
        Some(KnownApiError::RateLimitExceeded)
    } else if status == 501 {
        Some(KnownApiError::NoUserAssociatedWithApiKey)
    } else {
        None
    }
}

impl KnownApiError {
    /// Classifies an HTTP status code into a known error kind, if the
    /// taxonomy maps it to one.
    pub fn from_status(status: u16) -> (r: Option<KnownApiError>)
        ensures
            r == kind_for_status(status),
    {
        match status {
            400 => Some(KnownApiError::InvalidParameter),
            401 => Some(KnownApiError::Unauthorized),
            404 => Some(KnownApiError::NotFound),
            429 => Some(KnownApiError::RateLimitExceeded),
            501 => Some(KnownApiError::NoUserAssociatedWithApiKey),
            _ => None,
        }
    }
}

/// An error returned by the Numista API.
#[derive(Debug, PartialEq)]
pub struct ApiError {
    /// The error message returned by the API.
    pub message: String,
    /// The HTTP status code returned by the API.
    pub status: u16,
    /// The known error kind for the status code, if the taxonomy maps it.
    pub kind: Option<KnownApiError>,
}

impl ApiError {
    /// Checks if the error is due to an invalid or missing parameter (HTTP 400).
    pub fn is_invalid_parameter(&self) -> (r: bool)
        ensures
            r == (self.status == 400),
    {
        self.status == 400
    }

    /// Checks if the error is due to an invalid or expired API key (HTTP 401).
    pub fn is_unauthorized(&self) -> (r: bool)
        ensures
            r == (self.status == 401),
    {
        self.status == 401
    }

    /// Checks if the requested resource could not be found (HTTP 404).
    pub fn is_not_found(&self) -> (r: bool)
        ensures
            r == (self.status == 404),
    {
        self.status == 404
    }

    /// Checks if the API rate limit has been exceeded (HTTP 429).
    pub fn is_rate_limit_exceeded(&self) -> (r: bool)
        ensures
            r == (self.status == 429),
    {
        self.status == 429
    }

    /// Checks if no user is associated with the provided API key (HTTP 501).
    pub fn is_no_user_associated_with_api_key(&self) -> (r: bool)
        ensures
            r == (self.status == 501),
    {
        self.status == 501
    }
}

/// The error type for this crate.
#[derive(Debug, PartialEq)]
pub enum Error {
    /// The API key was not provided in the `ClientBuilder`.
    ApiKeyMissing,
    /// An error in the underlying HTTP transport, described by its message.
    Request(String),
    /// A response body did not decode as the expected shape, described by
    /// the decoder's message.
    Json(String),
    /// An error returned by the Numista API.
    ApiError(ApiError),
}

impl Error {
    /// The human-readable message for the error.
    pub open spec fn spec_display(&self) -> Seq<char> {
        match self {
            Error::ApiKeyMissing => "Numista API key is required"@,
            Error::Request(m) => "Request error: "@ + m@,
            Error::Json(m) => "JSON error: "@ + m@,
            Error::ApiError(a) => "API error (status "@ + crate::numfmt::dec_rep(a.status as nat)
                + "): "@ + a.message@,
        }
    }

    /// Renders the human-readable message for the error.
    pub fn display_string(&self) -> (s: String)
        ensures
            s@ == self.spec_display(),
    {
        match self {
            Error::ApiKeyMissing => String::from_str("Numista API key is required"),
            Error::Request(m) => {
                let mut s = String::from_str("Request error: ");
                s.append(m.as_str());
                s
            },
            Error::Json(m) => {
                let mut s = String::from_str("JSON error: ");
                s.append(m.as_str());
                s
            },
            Error::ApiError(a) => {
                let mut s = String::from_str("API error (status ");
                let status = crate::numfmt::u16_to_string(a.status);
                s.append(status.as_str());
                s.append("): ");
                s.append(a.message.as_str());
                s
            },
        }
    }
}

/// Whether an HTTP status code denotes success.
pub open spec fn spec_status_is_success(status: u16) -> bool {
    200 <= status < 300
}

/// Whether an HTTP status code denotes success (2xx).
pub fn status_is_success(status: u16) -> (r: bool)
    ensures
        r == spec_status_is_success(status),
{
    200 <= status && status < 300
}

/// Builds the classified error for a failed HTTP exchange from its status
/// code and the error message decoded from the response body.
pub fn parse_api_error(status: u16, message: String) -> (e: Error)
    ensures
        e matches Error::ApiError(a) && a.status == status && a.message == message
            && a.kind == kind_for_status(status),
{
    let kind = KnownApiError::from_status(status);
    Error::ApiError(ApiError { message, status, kind })
}

/// The decode attempt the caller made on a response body: for a success
/// status the body is decoded as the expected value, for a failure
/// status as the error envelope's message. Either decode may fail, with
/// the decoder's message.
pub enum BodyDecode<T> {
    Expected(Result<T, String>),
    ErrorMessage(Result<String, String>),
}

/// Classifies one raw HTTP exchange into a typed success or a failure of
/// the taxonomy: a decoded success body is the result; a decode failure
/// on either side is a JSON error, never folded into an API failure; a
/// decoded error envelope becomes the classified API failure for the
/// status code.
pub fn classify_response<T>(status: u16, body: BodyDecode<T>) -> (r: Result<T, Error>)
    requires
        body is Expected <==> spec_status_is_success(status),
    ensures
        match body {
            BodyDecode::Expected(d) => match d {
                Ok(v) => r matches Ok(w) && w == v,
                Err(m) => r matches Err(e) && e == Error::Json(m),
            },
            BodyDecode::ErrorMessage(d) => match d {
                Ok(m) => r matches Err(e) && e matches Error::ApiError(a) && a.status == status
                    && a.message == m && a.kind == kind_for_status(status),
                Err(m) => r matches Err(e) && e == Error::Json(m),
            },
        },
{
    match body {
        BodyDecode::Expected(Ok(v)) => Ok(v),
        BodyDecode::Expected(Err(m)) => Err(Error::Json(m)),
        BodyDecode::ErrorMessage(Ok(m)) => Err(parse_api_error(status, m)),
        BodyDecode::ErrorMessage(Err(m)) => Err(Error::Json(m)),
    }
}

} // verus!
