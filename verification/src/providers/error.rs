//! Error taxonomy for provider lookups and downloads.

use vstd::prelude::*;

verus! {

/// The kind of provider an error originated from.
#[derive(Clone, Copy, Debug, PartialEq, Eq, Structural)]
pub enum ProviderType {
    ServerBinary,
}

impl ProviderType {
    /// The registered name of the provider kind.
    pub fn name(&self) -> (r: String)
        ensures
            *self is ServerBinary ==> r@ == "server_binary"@,
    {
        match self {
            ProviderType::ServerBinary => String::from_str("server_binary"),
        }
    }
}

/// Everything that can go wrong while talking to a provider.
#[derive(Clone, Debug, PartialEq, Eq)]
pub enum ProviderError {
    /// A required version component was not supplied.
    MissingVersionComponent(String),
    /// The request to the provider upstream could not be dispatched.
    RequestError(String),
    /// The provider upstream answered with an error status.
    ResponseError { status: String, url: String, data: String },
    /// The provider's response could not be parsed.
    ResponseDataError(String),
    /// The named version component is not one the provider offers.
    UnknownVersionComponent(String),
    /// The provider has no versions of the component for that game version.
    NoVersions { component: String, mc_version: String },
    /// A downloaded artifact could not be written out.
    DownloadError { path: String, reason: String },
    /// A version value of the wrong provider was passed in.
    IncorrectArg(String),
}

impl ProviderError {
    /// An equal copy of this error.
    pub fn dup(&self) -> (r: ProviderError)
        ensures
            r == *self,
    {
        match self {
            ProviderError::MissingVersionComponent(s) => ProviderError::MissingVersionComponent(
                s.clone(),
            ),
            ProviderError::RequestError(s) => ProviderError::RequestError(s.clone()),
            ProviderError::ResponseError { status, url, data } => ProviderError::ResponseError {
                status: status.clone(),
                url: url.clone(),
                data: data.clone(),
            },
            ProviderError::ResponseDataError(s) => ProviderError::ResponseDataError(s.clone()),
            ProviderError::UnknownVersionComponent(s) => ProviderError::UnknownVersionComponent(
                s.clone(),
            ),
            ProviderError::NoVersions { component, mc_version } => ProviderError::NoVersions {
                component: component.clone(),
                mc_version: mc_version.clone(),
            },
            ProviderError::DownloadError { path, reason } => ProviderError::DownloadError {
                path: path.clone(),
                reason: reason.clone(),
            },
            ProviderError::IncorrectArg(s) => ProviderError::IncorrectArg(s.clone()),
        }
    }

    /// Classify an upstream response that did not succeed, filling in the
    /// placeholders the transport could not supply: an unknown request URL
    /// and an unknown status code default to fixed markers.
    pub fn response_error(status: Option<String>, url: Option<String>, data: String) -> (r:
        ProviderError)
        ensures
            r matches (ProviderError::ResponseError { status: st, url: u, data: d }) && ({
                &&& match status {
                    Some(s) => st == s,
                    None => st@ == "500 Internal Server Error"@,
                }
                &&& match url {
                    Some(s) => u == s,
                    None => u@ == "UNKNOWN_URL"@,
                }
                &&& d == data
            }),
    {
        let st = match status {
            Some(s) => s,
            None => String::from_str("500 Internal Server Error"),
        };
        let u = match url {
            Some(s) => s,
            None => String::from_str("UNKNOWN_URL"),
        };
        ProviderError::ResponseError { status: st, url: u, data }
    }
}

} // verus!
