//! Client library for the Path of Exile web API: an OAuth2 authorization-code
//! flow with PKCE, a local listener that captures the provider's redirect, and
//! the request plumbing around the profile endpoint.
pub mod authurl;
pub mod codec;
pub mod config;
pub mod flow;
pub mod response;
pub mod scope;
pub mod server;

use vstd::prelude::*;
use vstd::string::StringExecFns;

verus! {

/// Base URL of the API endpoints.
pub const API_URL: &'static str = "https://api.pathofexile.com";

/// The provider's authorization endpoint.
pub const AUTH_URL: &'static str = "https://www.pathofexile.com/oauth/authorize";

/// The provider's token endpoint.
pub const TOKEN_URL: &'static str = "https://www.pathofexile.com/oauth/token";

/// The page served to the browser after a successful callback, unless the
/// configuration replaces it.
pub const CLOSE_HTML: &'static str = r#"<!DOCTYPE html>
<html lang="en">
<head>
  <meta charset="UTF-8">
  <title>Better PoE Redirect</title>
</head>
<body>
You can close this page.
</body>
</html>"#;

/// A structured error body returned by the provider.
#[derive(Debug, Clone)]
pub struct PoEApiError {
    pub error: String,
    pub error_description: String,
}

/// Every failure this library surfaces. Configuration failures are found at
/// construction; transport failures carry the underlying message; a provider
/// error carries the provider's code and description; a cancelled flow is
/// distinct from a failed exchange.
#[derive(Debug, Clone)]
pub enum Error {
    /// The local listener could not be bound or failed while serving.
    IoError(String),
    /// The HTTPS transport failed.
    ReqwestError(String),
    /// A URL handed to the configuration did not parse; carries the
    /// parser's own description of the failure.
    UrlParseError(String),
    /// A required configuration field was never set.
    UninitializedField(String),
    /// The provider returned a structured error body.
    PoEApiError { error: String, error_description: String },
    /// The code-for-token exchange failed, for whatever reason.
    FailedToGetAuthorizationCode,
    /// The cancellation flag was observed while waiting for the redirect.
    FlowCancelled,
    /// Any other failure, described in words.
    Custom(String),
}

impl Error {
    /// A human-readable description of the error.
    pub fn message(&self) -> (r: String)
        ensures
            r@ == self.message_view(),
    {
        match self {
            Error::IoError(m) => m.clone(),
            Error::ReqwestError(m) => m.clone(),
            Error::UrlParseError(m) => m.clone(),
            Error::UninitializedField(f) => {
                let mut m = "uninitialized field: ".to_owned();
                m.append(f.as_str());
                m
            },
            Error::PoEApiError { error, error_description } => {
                let mut m = error.clone();
                m.append(": ");
                m.append(error_description.as_str());
                m
            },
            Error::FailedToGetAuthorizationCode => "Failed to get authorization code".to_owned(),
            Error::FlowCancelled => "authorization flow cancelled".to_owned(),
            Error::Custom(m) => m.clone(),
        }
    }

    /// What `message` returns, variant by variant.
    pub open spec fn message_view(self) -> Seq<char> {
        match self {
            Error::IoError(m) => m@,
            Error::ReqwestError(m) => m@,
            Error::UrlParseError(m) => m@,
            Error::UninitializedField(f) => "uninitialized field: "@ + f@,
            Error::PoEApiError { error, error_description } => error@ + ": "@
                + error_description@,
            Error::FailedToGetAuthorizationCode => "Failed to get authorization code"@,
            Error::FlowCancelled => "authorization flow cancelled"@,
            Error::Custom(m) => m@,
        }
    }
}

} // verus!
