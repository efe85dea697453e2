use steamguard::error::ApiError;
use steamguard::numeric::parse_u64;
use steamguard::numeric::u64_to_string;
use steamguard::session::Session;
use steamguard::session::SessionFields;

fn sample_session() -> Session {
    Session {
        session_id: "XYZ".to_string(),
        steam_login: "76561197960265728%7C%7CA".to_string(),
        steam_login_secure: "76561197960265728%7C%7CB".to_string(),
        web_cookie: Some("W".to_string()),
        token: "T".to_string(),
        steam_id: 76561197960265728,
    }
}

#[test]
fn session_fields_round_trip_is_loss_free() {
    let s = sample_session();
    let fields = s.to_fields();
    assert_eq!(fields.steam_id, "76561197960265728");
    assert_eq!(fields.oauth_token, "T");
    let back = Session::from_fields(&fields).unwrap();
    assert_eq!(back.session_id, s.session_id);
    assert_eq!(back.steam_login, s.steam_login);
    assert_eq!(back.steam_login_secure, s.steam_login_secure);
    assert_eq!(back.web_cookie, s.web_cookie);
    assert_eq!(back.token, s.token);
    assert_eq!(back.steam_id, s.steam_id);
}

#[test]
fn session_fields_round_trip_without_web_cookie() {
    let mut s = sample_session();
    s.web_cookie = None;
    let back = Session::from_fields(&s.to_fields()).unwrap();
    assert_eq!(back.web_cookie, None);
    assert_eq!(back.steam_id, s.steam_id);
}

#[test]
fn non_numeric_account_id_is_malformed_session() {
    let fields = SessionFields {
        session_id: "XYZ".to_string(),
        steam_login: "a".to_string(),
        steam_login_secure: "b".to_string(),
        web_cookie: None,
        oauth_token: "T".to_string(),
        steam_id: "not-a-number".to_string(),
    };
    let r = Session::from_fields(&fields);
    assert!(matches!(r, Err(ApiError::MalformedSession)));
}

#[test]
fn secret_session_reveals_the_wrapped_record() {
    let s = sample_session();
    let secret = steamguard::session::SecretSession::new(s);
    assert_eq!(secret.expose_secret().token, "T");
    let copy = secret.duplicate();
    assert_eq!(copy.expose_secret().steam_id, 76561197960265728);
}

#[test]
fn u64_rendering_is_canonical() {
    assert_eq!(u64_to_string(0), "0");
    assert_eq!(u64_to_string(42), "42");
    assert_eq!(u64_to_string(u64::MAX), "18446744073709551615");
}

#[test]
fn u64_parsing_accepts_what_std_accepts() {
    assert_eq!(parse_u64("0"), Some(0));
    assert_eq!(parse_u64("42"), Some(42));
    assert_eq!(parse_u64("+7"), Some(7));
    assert_eq!(parse_u64("007"), Some(7));
    assert_eq!(parse_u64("18446744073709551615"), Some(u64::MAX));
}

#[test]
fn u64_parsing_rejects_what_std_rejects() {
    assert_eq!(parse_u64(""), None);
    assert_eq!(parse_u64("+"), None);
    assert_eq!(parse_u64("1a"), None);
    assert_eq!(parse_u64("-1"), None);
    assert_eq!(parse_u64(" 1"), None);
    assert_eq!(parse_u64("18446744073709551616"), None);
    assert_eq!(parse_u64("99999999999999999999999"), None);
}

#[test]
fn parsing_agrees_with_std_on_samples() {
    for sample in ["0", "+123", "", "abc", "18446744073709551616", "007"] {
        assert_eq!(parse_u64(sample), sample.parse::<u64>().ok());
    }
}
