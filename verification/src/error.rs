//! The library's error taxonomy. Every failure a runner or provider surfaces
//! is one of these values, tagged with enough context (scope, driver kind,
//! runner id) for an outside error reporter to attribute it.

use crate::providers::error::{ProviderError, ProviderType};
use vstd::prelude::*;

verus! {

/// A failure inside the library or in something it drives.
#[derive(Clone, Debug, PartialEq, Eq)]
pub enum Error {
    /// An error nothing more specific covers.
    Unexpected(String),
    /// A process runner failed; `scope` and `runner` identify the driver
    /// kind, `id` the runner instance.
    RunnerError { scope: String, runner: String, id: String, reason: String },
    /// An input value was rejected.
    ValueError { value: String, reason: String },
    /// A provider reported an error.
    ProviderError { provider_type: ProviderType, provider_name: String, error: ProviderError },
    /// A network request could not be dispatched.
    RequestDispatchError(String),
    /// A network request was answered with an error status.
    RequestResponseError { url: String, status: String, reason: String },
    /// Response data could not be parsed.
    ResponseParsingError(String),
    /// A lookup inside response data found nothing usable.
    DataPathError { path: String, data: String, reason: String },
    /// Input could not be deserialized.
    DeserializationError(String),
    /// Input could not be serialized.
    SerializationError(String),
}

/// A result whose error side is the library's [`Error`].
pub type Res<T> = Result<T, Error>;

impl Error {
    /// An equal copy of this error.
    pub fn dup(&self) -> (r: Error)
        ensures
            r == *self,
    {
        match self {
            Error::Unexpected(s) => Error::Unexpected(s.clone()),
            Error::RunnerError { scope, runner, id, reason } => Error::RunnerError {
                scope: scope.clone(),
                runner: runner.clone(),
                id: id.clone(),
                reason: reason.clone(),
            },
            Error::ValueError { value, reason } => Error::ValueError {
                value: value.clone(),
                reason: reason.clone(),
            },
            Error::ProviderError { provider_type, provider_name, error } => Error::ProviderError {
                provider_type: *provider_type,
                provider_name: provider_name.clone(),
                error: error.dup(),
            },
            Error::RequestDispatchError(s) => Error::RequestDispatchError(s.clone()),
            Error::RequestResponseError { url, status, reason } => Error::RequestResponseError {
                url: url.clone(),
                status: status.clone(),
                reason: reason.clone(),
            },
            Error::ResponseParsingError(s) => Error::ResponseParsingError(s.clone()),
            Error::DataPathError { path, data, reason } => Error::DataPathError {
                path: path.clone(),
                data: data.clone(),
                reason: reason.clone(),
            },
            Error::DeserializationError(s) => Error::DeserializationError(s.clone()),
            Error::SerializationError(s) => Error::SerializationError(s.clone()),
        }
    }

    /// Wrap an error message nothing more specific covers.
    pub fn unexpected<T>(err: String) -> (r: Res<T>)
        ensures
            r == Res::<T>::Err(Error::Unexpected(err)),
    {
        Err(Error::Unexpected(err))
    }

    /// Reject an input value for the given reason.
    pub fn value_error(value: String, reason: String) -> (r: Error)
        ensures
            r == (Error::ValueError { value, reason }),
    {
        Error::ValueError { value, reason }
    }

    /// Attribute a provider error to the provider it came from.
    pub fn provider_error(provider_type: ProviderType, provider_name: String, error: ProviderError)
        -> (r: Error)
        ensures
            r == (Error::ProviderError { provider_type, provider_name, error }),
    {
        Error::ProviderError { provider_type, provider_name, error }
    }

    /// Classify an answered-but-failed request, filling in the placeholders
    /// the transport could not supply: an unknown URL and an unknown status
    /// code default to fixed markers.
    pub fn response_error(url: Option<String>, status: Option<String>, reason: String) -> (r: Error)
        ensures
            r matches (Error::RequestResponseError { url: u, status: st, reason: re }) && ({
                &&& match url {
                    Some(s) => u == s,
                    None => u@ == "UNKNOWN URL"@,
                }
                &&& match status {
                    Some(s) => st == s,
                    None => st@ == "500 Internal Server Error"@,
                }
                &&& re == reason
            }),
    {
        let u = match url {
            Some(s) => s,
            None => String::from_str("UNKNOWN URL"),
        };
        let st = match status {
            Some(s) => s,
            None => String::from_str("500 Internal Server Error"),
        };
        Error::RequestResponseError { url: u, status: st, reason }
    }

    /// Report a failed deserialization.
    pub fn deserialization(error: String) -> (r: Error)
        ensures
            r == Error::DeserializationError(error),
    {
        Error::DeserializationError(error)
    }

    /// Report a failed serialization.
    pub fn serialization(error: String) -> (r: Error)
        ensures
            r == Error::SerializationError(error),
    {
        Error::SerializationError(error)
    }
}

/// A failure as the web-facing layer reports it.
#[derive(Clone, Debug, PartialEq, Eq)]
pub enum ApiError {
    /// An error that no handler caught.
    Uncaught(String),
    /// An internal library error.
    Internal(Error),
    /// The application configuration is unusable.
    Configuration(String),
    /// A cryptographic operation failed.
    CryptographicError(String),
    /// The supplied credentials were wrong.
    BadLogin,
    /// A required authorization resource was missing.
    MissingAuthorization(String),
}

/// A result whose error side is an [`ApiError`].
pub type ApiResult<T> = Result<T, ApiError>;

impl ApiError {
    /// Report an unusable application configuration.
    pub fn configuration(reason: String) -> (r: ApiError)
        ensures
            r == ApiError::Configuration(reason),
    {
        ApiError::Configuration(reason)
    }

    /// Report wrong credentials.
    pub fn bad_login() -> (r: ApiError)
        ensures
            r == ApiError::BadLogin,
    {
        ApiError::BadLogin
    }

    /// Report a missing authorization resource.
    pub fn missing_auth(context: String) -> (r: ApiError)
        ensures
            r == ApiError::MissingAuthorization(context),
    {
        ApiError::MissingAuthorization(context)
    }
}

impl From<Error> for ApiError {
    fn from(value: Error) -> (r: ApiError)
        ensures
            r == ApiError::Internal(value),
    {
        ApiError::Internal(value)
    }
}

impl vstd::std_specs::convert::FromSpecImpl<Error> for ApiError {
    open spec fn obeys_from_spec() -> bool {
        true
    }

    open spec fn from_spec(value: Error) -> ApiError {
        ApiError::Internal(value)
    }
}

} // verus!
