use steamguard::client::SteamApiClient;
use steamguard::endpoints;
use steamguard::error::ApiError;
use steamguard::session::SecretSession;
use steamguard::session::Session;

fn client_with_session() -> SteamApiClient {
    let mut client = SteamApiClient::new(None);
    client.session = Some(SecretSession::new(Session {
        session_id: "SID".to_string(),
        steam_login: "10%7C%7CA".to_string(),
        steam_login_secure: "10%7C%7CB".to_string(),
        web_cookie: None,
        token: "TOKEN".to_string(),
        steam_id: 10,
    }));
    client
}

fn as_pairs(v: &[(String, String)]) -> Vec<(&str, &str)> {
    v.iter().map(|p| (p.0.as_str(), p.1.as_str())).collect()
}

#[test]
fn add_authenticator_params_draw_on_the_session() {
    let client = client_with_session();
    let params = client.add_authenticator_params("android:dev").unwrap();
    assert_eq!(
        as_pairs(&params),
        vec![
            ("access_token", "TOKEN"),
            ("steamid", "10"),
            ("authenticator_type", "1"),
            ("device_identifier", "android:dev"),
            ("sms_phone_id", "1"),
        ]
    );
}

#[test]
fn finalize_authenticator_params_carry_the_codes() {
    let client = client_with_session();
    let params = client.finalize_authenticator_params("SMS", "CODE", 1234567).unwrap();
    assert_eq!(
        as_pairs(&params),
        vec![
            ("steamid", "10"),
            ("access_token", "TOKEN"),
            ("activation_code", "SMS"),
            ("authenticator_code", "CODE"),
            ("authenticator_time", "1234567"),
        ]
    );
}

#[test]
fn remove_authenticator_params_carry_the_revocation_code() {
    let client = client_with_session();
    let params = client.remove_authenticator_params("R12345").unwrap();
    assert_eq!(
        as_pairs(&params),
        vec![
            ("steamid", "10"),
            ("steamguard_scheme", "2"),
            ("revocation_code", "R12345"),
            ("access_token", "TOKEN"),
        ]
    );
}

#[test]
fn phoneajax_params_carry_the_session_cookie_value() {
    let client = client_with_session();
    let params = client.phoneajax_params("has_phone", "null").unwrap();
    assert_eq!(
        as_pairs(&params),
        vec![("op", "has_phone"), ("arg", "null"), ("sessionid", "SID")]
    );
}

#[test]
fn sms_code_check_adds_the_compatibility_fields() {
    let client = client_with_session();
    let params = client.phoneajax_params("check_sms_code", "9999").unwrap();
    assert_eq!(
        as_pairs(&params),
        vec![
            ("op", "check_sms_code"),
            ("arg", "9999"),
            ("sessionid", "SID"),
            ("checkfortos", "0"),
            ("skipvoip", "1"),
        ]
    );
}

#[test]
fn phone_validate_params_use_the_capitalized_session_key() {
    let client = client_with_session();
    let params = client.phone_validate_params("+1 1234567890").unwrap();
    assert_eq!(
        as_pairs(&params),
        vec![("sessionID", "SID"), ("phoneNumber", "+1 1234567890")]
    );
}

#[test]
fn phone_add_ajaxop_params_carry_op_and_input() {
    let client = client_with_session();
    let params = client.phone_add_ajaxop_params("get_phone_number", "+1 555").unwrap();
    assert_eq!(
        as_pairs(&params),
        vec![("op", "get_phone_number"), ("input", "+1 555"), ("sessionid", "SID")]
    );
}

#[test]
fn operations_without_a_session_surface_the_precondition_error() {
    let client = SteamApiClient::new(None);
    assert!(matches!(client.add_authenticator_params("d"), Err(ApiError::NoSession)));
    assert!(matches!(
        client.finalize_authenticator_params("a", "b", 0),
        Err(ApiError::NoSession)
    ));
    assert!(matches!(client.remove_authenticator_params("r"), Err(ApiError::NoSession)));
    assert!(matches!(client.phoneajax_params("op", "arg"), Err(ApiError::NoSession)));
    assert!(matches!(client.phone_validate_params("p"), Err(ApiError::NoSession)));
    assert!(matches!(client.phone_add_ajaxop_params("op", "i"), Err(ApiError::NoSession)));
}

#[test]
fn adding_a_phone_number_is_unsupported() {
    let client = client_with_session();
    assert!(matches!(client.add_phone_number("+1 555"), Err(ApiError::Unsupported)));
}

#[test]
fn endpoint_addresses_are_fixed() {
    assert_eq!(endpoints::login_url(), "https://steamcommunity.com/login/dologin");
    assert_eq!(
        endpoints::query_time_url(),
        "https://api.steampowered.com/ITwoFactorService/QueryTime/v0001"
    );
    assert_eq!(
        endpoints::add_authenticator_url(),
        "https://api.steampowered.com/ITwoFactorService/AddAuthenticator/v0001"
    );
    assert_eq!(
        endpoints::finalize_authenticator_url(),
        "https://api.steampowered.com/ITwoFactorService/FinalizeAddAuthenticator/v0001"
    );
    assert_eq!(
        endpoints::remove_authenticator_url(),
        "https://api.steampowered.com/ITwoFactorService/RemoveAuthenticator/v0001"
    );
    assert_eq!(endpoints::phoneajax_url(), "https://steamcommunity.com/steamguard/phoneajax");
    assert_eq!(endpoints::phone_validate_url(), "https://store.steampowered.com/phone/validate");
    assert_eq!(
        endpoints::requested_with_header_value(),
        "com.valvesoftware.android.steam.community"
    );
}
