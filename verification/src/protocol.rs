//! The login/credential-transfer protocol: the shapes the primary login
//! endpoint answers with, the classification of those answers, and the
//! materialization of a session record from whichever OAuth-shaped data was
//! obtained.

use crate::error::ApiError;
use crate::numeric::dec_digits;
use crate::numeric::u64_string_value;
use crate::session::SessionView;
use vstd::prelude::*;

verus! {

/// The mathematical content of an inline OAuth payload.
#[verifier::ext_equal]
pub struct OAuthDataView {
    pub oauth_token: Seq<char>,
    pub steamid: Seq<char>,
    pub wgtoken: Seq<char>,
    pub wgtoken_secure: Seq<char>,
    pub webcookie: Seq<char>,
}

/// The OAuth-shaped payload a login exchange yields: the bearer token, the
/// account identifier as a decimal string, the two web-guard tokens, and the
/// raw web-cookie blob.
pub struct OAuthData {
    pub oauth_token: String,
    pub steamid: String,
    pub wgtoken: String,
    pub wgtoken_secure: String,
    pub webcookie: String,
}

impl View for OAuthData {
    type V = OAuthDataView;

    open spec fn view(&self) -> OAuthDataView {
        OAuthDataView {
            oauth_token: self.oauth_token@,
            steamid: self.steamid@,
            wgtoken: self.wgtoken@,
            wgtoken_secure: self.wgtoken_secure@,
            webcookie: self.webcookie@,
        }
    }
}

/// The mathematical content of the transfer parameters.
#[verifier::ext_equal]
pub struct TransferParametersView {
    pub steamid: Seq<char>,
    pub token_secure: Seq<char>,
    pub auth: Seq<char>,
    pub webcookie: Seq<char>,
}

/// The parameters a login response hands along for the secondary relay step.
pub struct TransferParameters {
    pub steamid: String,
    pub token_secure: String,
    pub auth: String,
    pub webcookie: String,
}

impl View for TransferParameters {
    type V = TransferParametersView;

    open spec fn view(&self) -> TransferParametersView {
        TransferParametersView {
            steamid: self.steamid@,
            token_secure: self.token_secure@,
            auth: self.auth@,
            webcookie: self.webcookie@,
        }
    }
}

/// The mathematical content of a primary login response.
#[verifier::ext_equal]
pub struct LoginResponseView {
    pub success: bool,
    pub login_complete: bool,
    pub requires_twofactor: bool,
    pub captcha_needed: bool,
    pub captcha_gid: Seq<char>,
    pub emailauth_needed: bool,
    pub message: Seq<char>,
    pub oauth: Option<OAuthDataView>,
    pub transfer_urls: Option<Seq<Seq<char>>>,
    pub transfer_parameters: Option<TransferParametersView>,
}

/// The structured result of the primary login call. It may carry an inline
/// OAuth payload, or transfer URLs plus transfer parameters requiring the
/// secondary relay step, or neither.
pub struct LoginResponse {
    pub success: bool,
    pub login_complete: bool,
    pub requires_twofactor: bool,
    pub captcha_needed: bool,
    pub captcha_gid: String,
    pub emailauth_needed: bool,
    pub message: String,
    pub oauth: Option<OAuthData>,
    pub transfer_urls: Option<Vec<String>>,
    pub transfer_parameters: Option<TransferParameters>,
}

impl View for LoginResponse {
    type V = LoginResponseView;

    open spec fn view(&self) -> LoginResponseView {
        LoginResponseView {
            success: self.success,
            login_complete: self.login_complete,
            requires_twofactor: self.requires_twofactor,
            captcha_needed: self.captcha_needed,
            captcha_gid: self.captcha_gid@,
            emailauth_needed: self.emailauth_needed,
            message: self.message@,
            oauth: match self.oauth {
                Some(o) => Some(o@),
                None => None,
            },
            transfer_urls: match self.transfer_urls {
                Some(u) => Some(u.deep_view()),
                None => None,
            },
            transfer_parameters: match self.transfer_parameters {
                Some(p) => Some(p@),
                None => None,
            },
        }
    }
}

/// The session record an OAuth payload and a session identifier materialize
/// into: the bearer token and parsed account identifier from the payload, the
/// two login cookies built as `{account id string}%7C%7C{guard token}`, and
/// the freshly extracted session identifier. Nothing when the account
/// identifier string does not parse.
pub open spec fn spec_session_of(data: OAuthDataView, session_id: Seq<char>) -> Option<
    SessionView,
> {
    match u64_string_value(data.steamid) {
        Some(n) => Some(
            SessionView {
                session_id: session_id,
                steam_login: data.steamid + "%7C%7C"@ + data.wgtoken,
                steam_login_secure: data.steamid + "%7C%7C"@ + data.wgtoken_secure,
                web_cookie: Some(data.webcookie),
                token: data.oauth_token,
                steam_id: n,
            },
        ),
        None => None,
    }
}

/// The OAuth-shaped data the transfer parameters stand for once every relay
/// completes. The secure guard token is reused for both guard-token slots:
/// the transfer path carries only one, a documented approximation of the
/// provider's mapping.
pub open spec fn spec_oauth_from_transfer(p: TransferParametersView) -> OAuthDataView {
    OAuthDataView {
        oauth_token: p.auth,
        steamid: p.steamid,
        wgtoken: p.token_secure,
        wgtoken_secure: p.token_secure,
        webcookie: p.webcookie,
    }
}

/// Builds the OAuth-shaped data carried by transfer parameters.
pub fn oauth_from_transfer(p: &TransferParameters) -> (r: OAuthData)
    ensures
        r@ == spec_oauth_from_transfer(p@),
{
    let r = OAuthData {
        oauth_token: p.auth.clone(),
        steamid: p.steamid.clone(),
        wgtoken: p.token_secure.clone(),
        wgtoken_secure: p.token_secure.clone(),
        webcookie: p.webcookie.clone(),
    };
    proof {
        assert(r@ =~= spec_oauth_from_transfer(p@));
    }
    r
}

/// The relay work a login response calls for: one relay per transfer URL, in
/// order, each carrying the transfer parameters.
pub struct TransferPlan {
    pub urls: Vec<String>,
    pub parameters: TransferParameters,
}

/// Extracts the transfer step from a primary login response.
///
/// Succeeds exactly when the response carries both transfer URLs and transfer
/// parameters; a response carrying neither failed to deliver any credentials,
/// and one carrying only one of the two is a protocol error distinct from
/// that, surfaced without guessing.
pub fn transfer_plan(resp: LoginResponse) -> (r: Result<TransferPlan, ApiError>)
    ensures
        match r {
            Ok(plan) => resp@.transfer_urls == Some(plan.urls.deep_view())
                && resp@.transfer_parameters == Some(plan.parameters@),
            Err(e) => match e {
                ApiError::NoCredentials => resp@.transfer_urls is None
                    && resp@.transfer_parameters is None,
                ApiError::MissingTransferParameters => resp@.transfer_urls is Some
                    && resp@.transfer_parameters is None,
                ApiError::MissingTransferUrls => resp@.transfer_urls is None
                    && resp@.transfer_parameters is Some,
                _ => false,
            },
        },
        r is Ok <==> (resp@.transfer_urls is Some && resp@.transfer_parameters is Some),
{
    match (resp.transfer_urls, resp.transfer_parameters) {
        (Some(urls), Some(params)) => Ok(TransferPlan { urls, parameters: params }),
        (None, None) => Err(ApiError::NoCredentials),
        (Some(_), None) => Err(ApiError::MissingTransferParameters),
        (None, Some(_)) => Err(ApiError::MissingTransferUrls),
    }
}

/// An inline OAuth payload materializes into a session whose bearer token and
/// account identifier match the payload, and whose login cookies are the
/// account identifier string joined to the respective guard token by the
/// fixed `%7C%7C` separator.
pub proof fn lemma_inline_session_matches_payload(data: OAuthDataView, session_id: Seq<char>)
    requires
        u64_string_value(data.steamid) is Some,
    ensures
        spec_session_of(data, session_id) matches Some(s) && s.token == data.oauth_token
            && Some(s.steam_id) == u64_string_value(data.steamid) && s.steam_login == data.steamid
            + "%7C%7C"@ + data.wgtoken && s.steam_login_secure == data.steamid + "%7C%7C"@
            + data.wgtoken_secure && s.session_id == session_id && s.web_cookie == Some(
            data.webcookie,
        ),
        match u64_string_value(data.steamid) {
            Some(n) => data.steamid == dec_digits(n as nat) ==> (spec_session_of(data, session_id)
                matches Some(s2) && s2.steam_login == dec_digits(n as nat) + "%7C%7C"@
                + data.wgtoken && s2.steam_login_secure == dec_digits(n as nat) + "%7C%7C"@
                + data.wgtoken_secure),
            None => true,
        },
{
}

/// A transfer-path session's bearer token and account identifier equal those
/// carried in the transfer parameters.
pub proof fn lemma_transfer_session_credentials(p: TransferParametersView, session_id: Seq<char>)
    requires
        u64_string_value(p.steamid) is Some,
    ensures
        spec_session_of(spec_oauth_from_transfer(p), session_id) matches Some(s) && s.token
            == p.auth && Some(s.steam_id) == u64_string_value(p.steamid) && s.session_id
            == session_id,
{
}

} // verus!
