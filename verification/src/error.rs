//! Error taxonomy of the client stack.
//!
//! Validation errors (`InvalidDid`, `InvalidHandle`, `InvalidAtUri`,
//! `InvalidTid`) are raised before any network call; `Xrpc` carries a
//! structured error response from a repository server; the token-endpoint
//! failures are kept apart from each other so a caller can tell a failed
//! login from a session that needs a fresh login.
use vstd::prelude::*;

verus! {

#[derive(Debug)]
pub enum Error {
    /// A network or connection failure, reported by the HTTP layer.
    Http(String),
    /// A response body that should have parsed as JSON did not.
    Json(String),
    /// A target URL could not be built or parsed.
    UrlParse(String),
    /// A structured error response from an XRPC endpoint.
    Xrpc { status: u16, error: String, message: Option<String> },
    /// A record identifier was not thirteen characters of the sortable
    /// base-32 alphabet.
    InvalidTid(String),
    InvalidAtUri(String),
    InvalidDid(String),
    InvalidHandle(String),
    /// Session material was missing or could not produce headers.
    Session(String),
    Internal(String),
    /// The anti-forgery state returned by the authorization server did not
    /// match the pending authorization. The flow fails closed on this.
    StateMismatch,
    /// The callback arrived without a stored pending authorization.
    NoPendingAuth,
    /// The callback carried no authorization code.
    MissingCode(String),
    /// The authorization server itself reported an error at the callback.
    AuthorizationFailed { error: String, description: String },
    /// An identity-discovery hop failed; the message names the hop.
    Resolution(String),
    /// A terminal failure of the authorization-code exchange.
    TokenExchange { status: u16, body: String },
    /// A terminal failure of the refresh-token exchange; distinct from
    /// `TokenExchange` so the caller knows a re-login is needed.
    RefreshFailed { status: u16, body: String },
    /// Key material was malformed or a signature could not be produced.
    Signing(String),
}

/// The error shape a repository server declares for failed XRPC calls.
#[derive(Debug)]
pub struct XrpcErrorResponse {
    pub error: String,
    pub message: Option<String>,
}

impl Error {
    /// A short stable label for the variant, usable in logs and tests.
    pub fn kind(&self) -> (r: &'static str)
        ensures
            match self {
                Error::Http(_) => r@ == "http"@,
                Error::Json(_) => r@ == "json"@,
                Error::UrlParse(_) => r@ == "url parse"@,
                Error::Xrpc { .. } => r@ == "xrpc"@,
                Error::InvalidTid(_) => r@ == "invalid tid"@,
                Error::InvalidAtUri(_) => r@ == "invalid at-uri"@,
                Error::InvalidDid(_) => r@ == "invalid did"@,
                Error::InvalidHandle(_) => r@ == "invalid handle"@,
                Error::Session(_) => r@ == "session"@,
                Error::Internal(_) => r@ == "internal"@,
                Error::StateMismatch => r@ == "state mismatch"@,
                Error::NoPendingAuth => r@ == "no pending auth"@,
                Error::MissingCode(_) => r@ == "missing code"@,
                Error::AuthorizationFailed { .. } => r@ == "authorization failed"@,
                Error::Resolution(_) => r@ == "resolution"@,
                Error::TokenExchange { .. } => r@ == "token exchange"@,
                Error::RefreshFailed { .. } => r@ == "refresh failed"@,
                Error::Signing(_) => r@ == "signing"@,
            },
    {
        match self {
            Error::Http(_) => "http",
            Error::Json(_) => "json",
            Error::UrlParse(_) => "url parse",
            Error::Xrpc { .. } => "xrpc",
            Error::InvalidTid(_) => "invalid tid",
            Error::InvalidAtUri(_) => "invalid at-uri",
            Error::InvalidDid(_) => "invalid did",
            Error::InvalidHandle(_) => "invalid handle",
            Error::Session(_) => "session",
            Error::Internal(_) => "internal",
            Error::StateMismatch => "state mismatch",
            Error::NoPendingAuth => "no pending auth",
            Error::MissingCode(_) => "missing code",
            Error::AuthorizationFailed { .. } => "authorization failed",
            Error::Resolution(_) => "resolution",
            Error::TokenExchange { .. } => "token exchange",
            Error::RefreshFailed { .. } => "refresh failed",
            Error::Signing(_) => "signing",
        }
    }
}

} // verus!
