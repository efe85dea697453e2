//! Typed response shapes of the authenticated operation set and of the
//! unauthenticated time query. The caller decodes the wire bodies into these
//! plain values.

use vstd::prelude::*;

verus! {

/// The server-time query's answer: the server clock and its tolerance
/// parameters, consumed by a collaborator doing time-synchronized code
/// generation.
pub struct QueryTimeResponse {
    pub server_time: u64,
    pub skew_tolerance_seconds: u64,
    pub large_time_jink: u64,
    pub probe_frequency_seconds: u64,
    pub adjusted_time_probe_frequency_seconds: u64,
    pub hint_probe_frequency_seconds: u64,
    pub sync_timeout: u64,
    pub try_again_seconds: u64,
    pub max_attempts: u64,
}

/// The answer of the phone-number validation endpoint.
pub struct PhoneValidateResponse {
    pub success: bool,
    pub number: String,
    pub is_valid: bool,
    pub is_voip: bool,
    pub is_fixed: bool,
}

/// The answer of the authenticator-enrollment endpoint: the freshly minted
/// authenticator secrets, to be confirmed by the finalization call.
pub struct AddAuthenticatorResponse {
    pub status: i32,
    pub shared_secret: String,
    pub serial_number: String,
    pub revocation_code: String,
    pub uri: String,
    pub server_time: u64,
    pub account_name: String,
    pub token_gid: String,
    pub identity_secret: String,
    pub secret_1: String,
}

/// The answer of the enrollment-finalization endpoint.
pub struct FinalizeAddAuthenticatorResponse {
    pub status: i32,
    pub server_time: u64,
    pub want_more: bool,
    pub success: bool,
}

/// The answer of the authenticator-removal endpoint.
pub struct RemoveAuthenticatorResponse {
    pub success: bool,
}

} // verus!
