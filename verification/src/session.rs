//! The Secret Session Record: the long-lived session material a successful
//! login produces, and its field-level serialized form.
//!
//! The record is immutable once built; a new login replaces it wholesale.
//! Access to the fields goes through an explicit `expose_secret` call so that
//! every deliberate use of the material is visible in code review. The
//! serialized form carries the account identifier as a decimal string; reading
//! it back parses that string and fails with `MalformedSession` when it is not
//! a number.

use crate::error::ApiError;
use crate::numeric::dec_digits;
use crate::numeric::lemma_u64_decimal_round_trip;
use crate::numeric::parse_u64;
use crate::numeric::u64_string_value;
use crate::numeric::u64_to_string;
use vstd::prelude::*;

verus! {

/// The mathematical content of a session record.
#[verifier::ext_equal]
pub struct SessionView {
    pub session_id: Seq<char>,
    pub steam_login: Seq<char>,
    pub steam_login_secure: Seq<char>,
    pub web_cookie: Option<Seq<char>>,
    pub token: Seq<char>,
    pub steam_id: u64,
}

/// The authenticated identity context: session identifier, the two login
/// cookies, the optional raw web-cookie blob, the bearer token, and the
/// numeric account identifier.
pub struct Session {
    pub session_id: String,
    pub steam_login: String,
    pub steam_login_secure: String,
    pub web_cookie: Option<String>,
    pub token: String,
    pub steam_id: u64,
}

impl View for Session {
    type V = SessionView;

    open spec fn view(&self) -> SessionView {
        SessionView {
            session_id: self.session_id@,
            steam_login: self.steam_login@,
            steam_login_secure: self.steam_login_secure@,
            web_cookie: match self.web_cookie {
                Some(w) => Some(w@),
                None => None,
            },
            token: self.token@,
            steam_id: self.steam_id,
        }
    }
}

impl Session {
    /// An exact copy of the record; every copy carries the same obligation to
    /// be handled as secret material.
    pub fn duplicate(&self) -> (r: Session)
        ensures
            r@ == self@,
    {
        let r = Session {
            session_id: self.session_id.clone(),
            steam_login: self.steam_login.clone(),
            steam_login_secure: self.steam_login_secure.clone(),
            web_cookie: match &self.web_cookie {
                Some(w) => Some(w.clone()),
                None => None,
            },
            token: self.token.clone(),
            steam_id: self.steam_id,
        };
        proof {
            assert(r@ =~= self@);
        }
        r
    }

    /// The field-level serialized form of the record, with the account
    /// identifier rendered as a decimal string.
    pub fn to_fields(&self) -> (r: SessionFields)
        ensures
            r@ == spec_to_fields(self@),
    {
        let r = SessionFields {
            session_id: self.session_id.clone(),
            steam_login: self.steam_login.clone(),
            steam_login_secure: self.steam_login_secure.clone(),
            web_cookie: match &self.web_cookie {
                Some(w) => Some(w.clone()),
                None => None,
            },
            oauth_token: self.token.clone(),
            steam_id: u64_to_string(self.steam_id),
        };
        proof {
            assert(r@ =~= spec_to_fields(self@));
        }
        r
    }

    /// Rebuilds a record from its field-level serialized form. Succeeds for
    /// every input whose account identifier parses as an unsigned 64-bit
    /// integer and fails with `MalformedSession` otherwise.
    pub fn from_fields(f: &SessionFields) -> (r: Result<Session, ApiError>)
        ensures
            match r {
                Ok(s) => spec_from_fields(f@) == Some(s@),
                Err(e) => spec_from_fields(f@) is None && e is MalformedSession,
            },
    {
        match parse_u64(f.steam_id.as_str()) {
            Some(n) => {
                let s = Session {
                    session_id: f.session_id.clone(),
                    steam_login: f.steam_login.clone(),
                    steam_login_secure: f.steam_login_secure.clone(),
                    web_cookie: match &f.web_cookie {
                        Some(w) => Some(w.clone()),
                        None => None,
                    },
                    token: f.oauth_token.clone(),
                    steam_id: n,
                };
                proof {
                    assert(spec_from_fields(f@) == Some(s@)) by {
                        assert(spec_from_fields(f@).unwrap() =~= s@);
                    }
                }
                Ok(s)
            },
            None => Err(ApiError::MalformedSession),
        }
    }
}

/// A session record held as secret material: the fields are reachable only
/// through the explicit `expose_secret` call.
pub struct SecretSession {
    inner: Session,
}

impl View for SecretSession {
    type V = SessionView;

    closed spec fn view(&self) -> SessionView {
        self.inner@
    }
}

impl SecretSession {
    /// Wraps a completed record as secret material.
    pub fn new(session: Session) -> (r: SecretSession)
        ensures
            r@ == session@,
    {
        SecretSession { inner: session }
    }

    /// Deliberate access to the secret record.
    pub fn expose_secret(&self) -> (r: &Session)
        ensures
            r@ == self@,
    {
        &self.inner
    }

    /// An exact copy of the secret, carrying the same handling obligation.
    pub fn duplicate(&self) -> (r: SecretSession)
        ensures
            r@ == self@,
    {
        SecretSession { inner: self.inner.duplicate() }
    }
}

/// The mathematical content of the serialized form.
#[verifier::ext_equal]
pub struct SessionFieldsView {
    pub session_id: Seq<char>,
    pub steam_login: Seq<char>,
    pub steam_login_secure: Seq<char>,
    pub web_cookie: Option<Seq<char>>,
    pub oauth_token: Seq<char>,
    pub steam_id: Seq<char>,
}

/// The field-level serialized form of a session record, as a collaborator
/// persists it: every field well-typed, the account identifier as a string.
pub struct SessionFields {
    pub session_id: String,
    pub steam_login: String,
    pub steam_login_secure: String,
    pub web_cookie: Option<String>,
    pub oauth_token: String,
    pub steam_id: String,
}

impl View for SessionFields {
    type V = SessionFieldsView;

    open spec fn view(&self) -> SessionFieldsView {
        SessionFieldsView {
            session_id: self.session_id@,
            steam_login: self.steam_login@,
            steam_login_secure: self.steam_login_secure@,
            web_cookie: match self.web_cookie {
                Some(w) => Some(w@),
                None => None,
            },
            oauth_token: self.oauth_token@,
            steam_id: self.steam_id@,
        }
    }
}

/// Serializing a session: every field carried over, the account identifier
/// rendered canonically.
pub open spec fn spec_to_fields(s: SessionView) -> SessionFieldsView {
    SessionFieldsView {
        session_id: s.session_id,
        steam_login: s.steam_login,
        steam_login_secure: s.steam_login_secure,
        web_cookie: s.web_cookie,
        oauth_token: s.token,
        steam_id: dec_digits(s.steam_id as nat),
    }
}

/// Deserializing the field-level form: succeeds exactly when the account
/// identifier parses as an unsigned 64-bit integer.
pub open spec fn spec_from_fields(f: SessionFieldsView) -> Option<SessionView> {
    match u64_string_value(f.steam_id) {
        Some(n) => Some(
            SessionView {
                session_id: f.session_id,
                steam_login: f.steam_login,
                steam_login_secure: f.steam_login_secure,
                web_cookie: f.web_cookie,
                token: f.oauth_token,
                steam_id: n,
            },
        ),
        None => None,
    }
}

/// Serializing then deserializing a session record is loss-free: the record
/// read back carries identical field values, for every record.
pub proof fn lemma_session_fields_round_trip(s: SessionView)
    ensures
        spec_from_fields(spec_to_fields(s)) == Some(s),
{
    lemma_u64_decimal_round_trip(s.steam_id);
    assert(spec_from_fields(spec_to_fields(s)).unwrap() =~= s);
}

} // verus!
