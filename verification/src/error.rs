//! Error taxonomy of the client: protocol errors (the server answered but
//! nonsensically), decode errors (the answer was not understood), precondition
//! errors (an operation was invoked without a session), and parse errors on
//! session materialization.

use vstd::prelude::*;

verus! {

/// Everything that can go wrong inside the client's own logic.
///
/// Transport failures are not represented here: the caller owns the network
/// and surfaces those itself.
#[derive(Debug, Clone)]
pub enum ApiError {
    /// The account identifier string could not be parsed as an unsigned
    /// integer while materializing a session.
    MalformedSession,
    /// The primary login response carried neither an inline OAuth payload nor
    /// transfer data: no credentials were received.
    NoCredentials,
    /// The login response carried transfer URLs but no transfer parameters.
    MissingTransferParameters,
    /// The login response carried transfer parameters but no transfer URLs.
    MissingTransferUrls,
    /// An authenticated operation was invoked while no session exists.
    NoSession,
    /// The operation is deliberately not supported by this client.
    Unsupported,
    /// A response body did not match the expected shape; carries the raw
    /// body so a human can diagnose the failure.
    Decode(String),
}

impl ApiError {
    /// Human-readable description of the error, carrying the raw response
    /// body for decode failures.
    pub fn describe(&self) -> (r: String)
        ensures
            match self {
                ApiError::MalformedSession => r@ == "failed to parse session account id"@,
                ApiError::NoCredentials => (
                    r@ == "did not receive transfer_urls and transfer_parameters"@
                ),
                ApiError::MissingTransferParameters => (
                    r@ == "did not receive transfer_parameters"@
                ),
                ApiError::MissingTransferUrls => r@ == "did not receive transfer_urls"@,
                ApiError::NoSession => r@ == "no session has been established"@,
                ApiError::Unsupported => r@ == "operation is not supported"@,
                ApiError::Decode(body) => r@ == "failed to decode response: "@ + body@,
            },
    {
        match self {
            ApiError::MalformedSession => "failed to parse session account id".to_owned(),
            ApiError::NoCredentials => {
                "did not receive transfer_urls and transfer_parameters".to_owned()
            },
            ApiError::MissingTransferParameters => "did not receive transfer_parameters".to_owned(),
            ApiError::MissingTransferUrls => "did not receive transfer_urls".to_owned(),
            ApiError::NoSession => "no session has been established".to_owned(),
            ApiError::Unsupported => "operation is not supported".to_owned(),
            ApiError::Decode(body) => {
                let mut r = "failed to decode response: ".to_owned();
                r.append(body.as_str());
                r
            },
        }
    }
}

} // verus!
