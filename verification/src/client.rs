//! The client: one cookie store plus at most one secret session, and the
//! protocol decisions of every operation.
//!
//! The caller owns the transport. For each remote call it asks this type for
//! the exact form fields and the `Cookie:` header value, performs the
//! exchange, and hands the response pieces back.

use crate::cookies::spec_apply_identity;
use crate::cookies::spec_get;
use crate::cookies::spec_header;
use crate::cookies::spec_merge;
use crate::cookies::CookiePair;
use crate::cookies::CookieStore;
use crate::error::ApiError;
use crate::numeric::dec_digits;
use crate::numeric::parse_u64;
use crate::numeric::u64_to_string;
use crate::protocol::oauth_from_transfer;
use crate::protocol::spec_oauth_from_transfer;
use crate::protocol::spec_session_of;
use crate::protocol::LoginResponse;
use crate::protocol::OAuthData;
use crate::protocol::TransferParameters;
use crate::session::SecretSession;
use crate::session::Session;
use crate::session::SessionView;
use vstd::prelude::*;

verus! {

/// The (name, value) pairs of a form body, as the contracts see them.
pub open spec fn form_view(v: Seq<(String, String)>) -> Seq<(Seq<char>, Seq<char>)> {
    v.map_values(|p: (String, String)| (p.0@, p.1@))
}

/// Client for the provider's web API: holds the cookie store and the secret
/// session, and decides what every request carries and what every response
/// means. The network exchanges themselves are the caller's.
pub struct SteamApiClient {
    pub cookies: CookieStore,
    pub session: Option<SecretSession>,
}

impl SteamApiClient {
    /// The session's mathematical content, when one exists.
    pub open spec fn session_view(&self) -> Option<SessionView> {
        match self.session {
            Some(s) => Some(s@),
            None => None,
        }
    }

    /// The session identifier the next request would assert, when a session
    /// exists.
    pub open spec fn session_id_view(&self) -> Option<Seq<char>> {
        match self.session {
            Some(s) => Some(s@.session_id),
            None => None,
        }
    }

    /// A client with an empty cookie store, resuming the given session.
    pub fn new(session: Option<SecretSession>) -> (r: SteamApiClient)
        ensures
            r.cookies@ == Seq::<CookiePair>::empty(),
            r.session_view() == (match session {
                Some(s) => Some(s@),
                None => None::<SessionView>,
            }),
    {
        SteamApiClient { cookies: CookieStore::new(), session }
    }

    /// Merges every `Set-Cookie` header value of a response into the cookie
    /// store; malformed values are skipped, never fatal.
    pub fn save_cookies_from_response(&mut self, set_cookies: &Vec<String>)
        ensures
            final(self).cookies@ == spec_merge(old(self).cookies@, set_cookies.deep_view()),
            final(self).session == old(self).session,
    {
        self.cookies.merge_set_cookie(set_cookies);
    }

    /// Reads the provider-assigned session identifier back out of the cookie
    /// store.
    pub fn extract_session_id(&self) -> (r: Option<String>)
        ensures
            match r {
                Some(sid) => spec_get(self.cookies@, "sessionid"@) == Some(sid@),
                None => spec_get(self.cookies@, "sessionid"@) is None,
            },
    {
        self.cookies.get("sessionid")
    }

    /// Forces the identity cookies (and the session cookie, when a session
    /// exists) into the store and returns the `Cookie:` header value every
    /// outgoing request carries.
    pub fn prepare_request(&mut self) -> (header: String)
        ensures
            final(self).cookies@ == spec_apply_identity(
                old(self).cookies@,
                old(self).session_id_view(),
            ),
            header@ == spec_header(final(self).cookies@),
            final(self).session == old(self).session,
    {
        let sid: Option<String> = match &self.session {
            Some(s) => Some(s.expose_secret().session_id.clone()),
            None => None,
        };
        match &sid {
            Some(v) => {
                self.cookies.apply_identity(Some(v));
            },
            None => {
                self.cookies.apply_identity(None);
            },
        }
        self.cookies.header_value()
    }

    /// Materializes a session record from an OAuth payload: bearer token and
    /// parsed account identifier from the payload, the two login cookies
    /// joined with the fixed separator, and the session identifier read back
    /// out of the cookie store. The login endpoint is contractually
    /// guaranteed to have set that cookie, so its presence is required.
    pub fn build_session(&self, data: &OAuthData) -> (r: Result<Session, ApiError>)
        requires
            spec_get(self.cookies@, "sessionid"@) is Some,
        ensures
            match r {
                Ok(s) => spec_session_of(data@, spec_get(self.cookies@, "sessionid"@).unwrap())
                    == Some(s@),
                Err(e) => e is MalformedSession && spec_session_of(
                    data@,
                    spec_get(self.cookies@, "sessionid"@).unwrap(),
                ) is None,
            },
    {
        let sid = match self.extract_session_id() {
            Some(s) => s,
            None => {
                proof {
                    assert(false);
                }
                return Err(ApiError::MalformedSession);
            },
        };
        match parse_u64(data.steamid.as_str()) {
            Some(n) => {
                let mut steam_login = data.steamid.clone();
                steam_login.append("%7C%7C");
                steam_login.append(data.wgtoken.as_str());
                let mut steam_login_secure = data.steamid.clone();
                steam_login_secure.append("%7C%7C");
                steam_login_secure.append(data.wgtoken_secure.as_str());
                let s = Session {
                    session_id: sid,
                    steam_login,
                    steam_login_secure,
                    web_cookie: Some(data.webcookie.clone()),
                    token: data.oauth_token.clone(),
                    steam_id: n,
                };
                proof {
                    let expected = spec_session_of(
                        data@,
                        spec_get(self.cookies@, "sessionid"@).unwrap(),
                    );
                    assert(expected.unwrap() =~= s@);
                }
                Ok(s)
            },
            None => Err(ApiError::MalformedSession),
        }
    }

    /// Records the outcome of the primary login call: when the response
    /// carries an inline OAuth payload, a fresh session replaces the old one;
    /// otherwise the client is left exactly as it was.
    pub fn record_login_response(&mut self, resp: &LoginResponse) -> (r: Result<(), ApiError>)
        requires
            resp@.oauth is Some ==> spec_get(old(self).cookies@, "sessionid"@) is Some,
        ensures
            final(self).cookies == old(self).cookies,
            match resp@.oauth {
                Some(data) => match r {
                    Ok(_) => final(self).session_view() == spec_session_of(
                        data,
                        spec_get(old(self).cookies@, "sessionid"@).unwrap(),
                    ) && final(self).session_view() is Some,
                    Err(e) => e is MalformedSession && spec_session_of(
                        data,
                        spec_get(old(self).cookies@, "sessionid"@).unwrap(),
                    ) is None && final(self).session == old(self).session,
                },
                None => r is Ok && final(self).session == old(self).session,
            },
    {
        match &resp.oauth {
            Some(data) => {
                match self.build_session(data) {
                    Ok(s) => {
                        self.session = Some(SecretSession::new(s));
                        Ok(())
                    },
                    Err(_) => Err(ApiError::MalformedSession),
                }
            },
            None => Ok(()),
        }
    }

    /// Completes the transfer path: the transfer parameters stand for the
    /// OAuth-shaped data (returned for inspection), and the session they
    /// materialize into replaces the old one.
    pub fn complete_transfer(&mut self, params: &TransferParameters) -> (r: Result<
        OAuthData,
        ApiError,
    >)
        requires
            spec_get(old(self).cookies@, "sessionid"@) is Some,
        ensures
            final(self).cookies == old(self).cookies,
            match r {
                Ok(data) => data@ == spec_oauth_from_transfer(params@)
                    && final(self).session_view() == spec_session_of(
                    data@,
                    spec_get(old(self).cookies@, "sessionid"@).unwrap(),
                ) && final(self).session_view() is Some,
                Err(e) => e is MalformedSession && spec_session_of(
                    spec_oauth_from_transfer(params@),
                    spec_get(old(self).cookies@, "sessionid"@).unwrap(),
                ) is None && final(self).session == old(self).session,
            },
    {
        let data = oauth_from_transfer(params);
        match self.build_session(&data) {
            Ok(s) => {
                self.session = Some(SecretSession::new(s));
                Ok(data)
            },
            Err(_) => Err(ApiError::MalformedSession),
        }
    }

    /// The form fields of an authenticator-enrollment call. Requires an
    /// established session; without one the precondition error is surfaced
    /// before any network call.
    pub fn add_authenticator_params(&self, device_id: &str) -> (r: Result<
        Vec<(String, String)>,
        ApiError,
    >)
        ensures
            r is Ok <==> self.session is Some,
            match r {
                Ok(v) => (self.session_view() matches Some(sv) && form_view(v@) == seq![
                    ("access_token"@, sv.token),
                    ("steamid"@, dec_digits(sv.steam_id as nat)),
                    ("authenticator_type"@, "1"@),
                    ("device_identifier"@, device_id@),
                    ("sms_phone_id"@, "1"@),
                ]),
                Err(e) => e is NoSession,
            },
    {
        match &self.session {
            None => Err(ApiError::NoSession),
            Some(sec) => {
                let s = sec.expose_secret();
                let mut v: Vec<(String, String)> = Vec::new();
                v.push(("access_token".to_owned(), s.token.clone()));
                v.push(("steamid".to_owned(), u64_to_string(s.steam_id)));
                v.push(("authenticator_type".to_owned(), "1".to_owned()));
                v.push(("device_identifier".to_owned(), device_id.to_owned()));
                v.push(("sms_phone_id".to_owned(), "1".to_owned()));
                proof {
                    assert(form_view(v@) =~= seq![
                        ("access_token"@, s@.token),
                        ("steamid"@, dec_digits(s@.steam_id as nat)),
                        ("authenticator_type"@, "1"@),
                        ("device_identifier"@, device_id@),
                        ("sms_phone_id"@, "1"@),
                    ]);
                }
                Ok(v)
            },
        }
    }

    /// The form fields of the enrollment-finalization call, carrying the
    /// confirmation code and the authenticator's own code and time.
    pub fn finalize_authenticator_params(
        &self,
        sms_code: &str,
        code_2fa: &str,
        time_2fa: u64,
    ) -> (r: Result<Vec<(String, String)>, ApiError>)
        ensures
            r is Ok <==> self.session is Some,
            match r {
                Ok(v) => (self.session_view() matches Some(sv) && form_view(v@) == seq![
                    ("steamid"@, dec_digits(sv.steam_id as nat)),
                    ("access_token"@, sv.token),
                    ("activation_code"@, sms_code@),
                    ("authenticator_code"@, code_2fa@),
                    ("authenticator_time"@, dec_digits(time_2fa as nat)),
                ]),
                Err(e) => e is NoSession,
            },
    {
        match &self.session {
            None => Err(ApiError::NoSession),
            Some(sec) => {
                let s = sec.expose_secret();
                let mut v: Vec<(String, String)> = Vec::new();
                v.push(("steamid".to_owned(), u64_to_string(s.steam_id)));
                v.push(("access_token".to_owned(), s.token.clone()));
                v.push(("activation_code".to_owned(), sms_code.to_owned()));
                v.push(("authenticator_code".to_owned(), code_2fa.to_owned()));
                v.push(("authenticator_time".to_owned(), u64_to_string(time_2fa)));
                proof {
                    assert(form_view(v@) =~= seq![
                        ("steamid"@, dec_digits(s@.steam_id as nat)),
                        ("access_token"@, s@.token),
                        ("activation_code"@, sms_code@),
                        ("authenticator_code"@, code_2fa@),
                        ("authenticator_time"@, dec_digits(time_2fa as nat)),
                    ]);
                }
                Ok(v)
            },
        }
    }

    /// The form fields of the authenticator-removal call.
    pub fn remove_authenticator_params(&self, revocation_code: &str) -> (r: Result<
        Vec<(String, String)>,
        ApiError,
    >)
        ensures
            r is Ok <==> self.session is Some,
            match r {
                Ok(v) => (self.session_view() matches Some(sv) && form_view(v@) == seq![
                    ("steamid"@, dec_digits(sv.steam_id as nat)),
                    ("steamguard_scheme"@, "2"@),
                    ("revocation_code"@, revocation_code@),
                    ("access_token"@, sv.token),
                ]),
                Err(e) => e is NoSession,
            },
    {
        match &self.session {
            None => Err(ApiError::NoSession),
            Some(sec) => {
                let s = sec.expose_secret();
                let mut v: Vec<(String, String)> = Vec::new();
                v.push(("steamid".to_owned(), u64_to_string(s.steam_id)));
                v.push(("steamguard_scheme".to_owned(), "2".to_owned()));
                v.push(("revocation_code".to_owned(), revocation_code.to_owned()));
                v.push(("access_token".to_owned(), s.token.clone()));
                proof {
                    assert(form_view(v@) =~= seq![
                        ("steamid"@, dec_digits(s@.steam_id as nat)),
                        ("steamguard_scheme"@, "2"@),
                        ("revocation_code"@, revocation_code@),
                        ("access_token"@, s@.token),
                    ]);
                }
                Ok(v)
            },
        }
    }

    /// The form fields of the multi-purpose phone ajax call; the SMS-code
    /// check carries two extra compatibility fields, as the provider expects.
    pub fn phoneajax_params(&self, op: &str, arg: &str) -> (r: Result<
        Vec<(String, String)>,
        ApiError,
    >)
        ensures
            r is Ok <==> self.session is Some,
            match r {
                Ok(v) => (self.session_view() matches Some(sv) && form_view(v@) == (if op@
                    == "check_sms_code"@ {
                    seq![
                        ("op"@, op@),
                        ("arg"@, arg@),
                        ("sessionid"@, sv.session_id),
                        ("checkfortos"@, "0"@),
                        ("skipvoip"@, "1"@),
                    ]
                } else {
                    seq![("op"@, op@), ("arg"@, arg@), ("sessionid"@, sv.session_id)]
                })),
                Err(e) => e is NoSession,
            },
    {
        match &self.session {
            None => Err(ApiError::NoSession),
            Some(sec) => {
                let s = sec.expose_secret();
                let mut v: Vec<(String, String)> = Vec::new();
                v.push(("op".to_owned(), op.to_owned()));
                v.push(("arg".to_owned(), arg.to_owned()));
                v.push(("sessionid".to_owned(), s.session_id.clone()));
                if op.to_owned() == "check_sms_code".to_owned() {
                    v.push(("checkfortos".to_owned(), "0".to_owned()));
                    v.push(("skipvoip".to_owned(), "1".to_owned()));
                    proof {
                        assert(form_view(v@) =~= seq![
                            ("op"@, op@),
                            ("arg"@, arg@),
                            ("sessionid"@, s@.session_id),
                            ("checkfortos"@, "0"@),
                            ("skipvoip"@, "1"@),
                        ]);
                    }
                } else {
                    proof {
                        assert(form_view(v@) =~= seq![
                            ("op"@, op@),
                            ("arg"@, arg@),
                            ("sessionid"@, s@.session_id),
                        ]);
                    }
                }
                Ok(v)
            },
        }
    }

    /// The form fields of the phone-number validation call.
    pub fn phone_validate_params(&self, phone_number: &str) -> (r: Result<
        Vec<(String, String)>,
        ApiError,
    >)
        ensures
            r is Ok <==> self.session is Some,
            match r {
                Ok(v) => (self.session_view() matches Some(sv) && form_view(v@) == seq![
                    ("sessionID"@, sv.session_id),
                    ("phoneNumber"@, phone_number@),
                ]),
                Err(e) => e is NoSession,
            },
    {
        match &self.session {
            None => Err(ApiError::NoSession),
            Some(sec) => {
                let s = sec.expose_secret();
                let mut v: Vec<(String, String)> = Vec::new();
                v.push(("sessionID".to_owned(), s.session_id.clone()));
                v.push(("phoneNumber".to_owned(), phone_number.to_owned()));
                proof {
                    assert(form_view(v@) =~= seq![
                        ("sessionID"@, s@.session_id),
                        ("phoneNumber"@, phone_number@),
                    ]);
                }
                Ok(v)
            },
        }
    }

    /// The form fields of the phone-add ajax call.
    pub fn phone_add_ajaxop_params(&self, op: &str, input: &str) -> (r: Result<
        Vec<(String, String)>,
        ApiError,
    >)
        ensures
            r is Ok <==> self.session is Some,
            match r {
                Ok(v) => (self.session_view() matches Some(sv) && form_view(v@) == seq![
                    ("op"@, op@),
                    ("input"@, input@),
                    ("sessionid"@, sv.session_id),
                ]),
                Err(e) => e is NoSession,
            },
    {
        match &self.session {
            None => Err(ApiError::NoSession),
            Some(sec) => {
                let s = sec.expose_secret();
                let mut v: Vec<(String, String)> = Vec::new();
                v.push(("op".to_owned(), op.to_owned()));
                v.push(("input".to_owned(), input.to_owned()));
                v.push(("sessionid".to_owned(), s.session_id.clone()));
                proof {
                    assert(form_view(v@) =~= seq![
                        ("op"@, op@),
                        ("input"@, input@),
                        ("sessionid"@, s@.session_id),
                    ]);
                }
                Ok(v)
            },
        }
    }

    /// Adding a phone number end to end is deliberately not supported by this
    /// client, never silently approximated.
    pub fn add_phone_number(&self, phone_number: &str) -> (r: Result<bool, ApiError>)
        ensures
            r matches Err(e) && e is Unsupported,
    {
        let _ = phone_number;
        Err(ApiError::Unsupported)
    }
}

/// The form fields of the primary login call. The password arrives already
/// encrypted; the cache-busting value (milliseconds) and the password
/// timestamp come from the caller, who owns the clock.
pub fn login_params(
    username: &str,
    encrypted_password: &str,
    twofactor_code: &str,
    email_code: &str,
    captcha_gid: &str,
    captcha_text: &str,
    rsa_timestamp: &str,
    donotcache_ms: u64,
) -> (r: Vec<(String, String)>)
    ensures
        form_view(r@) == seq![
            ("donotcache"@, dec_digits(donotcache_ms as nat)),
            ("username"@, username@),
            ("password"@, encrypted_password@),
            ("twofactorcode"@, twofactor_code@),
            ("emailauth"@, email_code@),
            ("captchagid"@, captcha_gid@),
            ("captcha_text"@, captcha_text@),
            ("rsatimestamp"@, rsa_timestamp@),
            ("remember_login"@, "true"@),
            ("oauth_client_id"@, "DE45CD61"@),
            ("oauth_scope"@, "read_profile write_profile read_client write_client"@),
        ],
{
    let mut v: Vec<(String, String)> = Vec::new();
    v.push(("donotcache".to_owned(), u64_to_string(donotcache_ms)));
    v.push(("username".to_owned(), username.to_owned()));
    v.push(("password".to_owned(), encrypted_password.to_owned()));
    v.push(("twofactorcode".to_owned(), twofactor_code.to_owned()));
    v.push(("emailauth".to_owned(), email_code.to_owned()));
    v.push(("captchagid".to_owned(), captcha_gid.to_owned()));
    v.push(("captcha_text".to_owned(), captcha_text.to_owned()));
    v.push(("rsatimestamp".to_owned(), rsa_timestamp.to_owned()));
    v.push(("remember_login".to_owned(), "true".to_owned()));
    v.push(("oauth_client_id".to_owned(), "DE45CD61".to_owned()));
    v.push(
        ("oauth_scope".to_owned(), "read_profile write_profile read_client write_client".to_owned()),
    );
    proof {
        assert(form_view(v@) =~= seq![
            ("donotcache"@, dec_digits(donotcache_ms as nat)),
            ("username"@, username@),
            ("password"@, encrypted_password@),
            ("twofactorcode"@, twofactor_code@),
            ("emailauth"@, email_code@),
            ("captchagid"@, captcha_gid@),
            ("captcha_text"@, captcha_text@),
            ("rsatimestamp"@, rsa_timestamp@),
            ("remember_login"@, "true"@),
            ("oauth_client_id"@, "DE45CD61"@),
            ("oauth_scope"@, "read_profile write_profile read_client write_client"@),
        ]);
    }
    v
}

} // verus!
