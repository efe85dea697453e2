use steamguard::client::login_params;
use steamguard::client::SteamApiClient;
use steamguard::error::ApiError;
use steamguard::protocol::transfer_plan;
use steamguard::protocol::LoginResponse;
use steamguard::protocol::OAuthData;
use steamguard::protocol::TransferParameters;

fn empty_response() -> LoginResponse {
    LoginResponse {
        success: false,
        login_complete: false,
        requires_twofactor: false,
        captcha_needed: false,
        captcha_gid: String::new(),
        emailauth_needed: false,
        message: String::new(),
        oauth: None,
        transfer_urls: None,
        transfer_parameters: None,
    }
}

fn sample_transfer_parameters() -> TransferParameters {
    TransferParameters {
        steamid: "1".to_string(),
        token_secure: "S".to_string(),
        auth: "AUTH".to_string(),
        webcookie: "W".to_string(),
    }
}

#[test]
fn inline_oauth_login_materializes_the_session() {
    // The documented scenario: username "alice", a valid encrypted password,
    // no 2FA/email/captcha; the response carries an inline OAuth payload and
    // the login endpoint set `sessionid=XYZ`.
    let _params = login_params("alice", "ENCRYPTED", "", "", "", "", "0", 0);
    let mut client = SteamApiClient::new(None);
    client.save_cookies_from_response(&vec!["sessionid=XYZ".to_string()]);
    let mut resp = empty_response();
    resp.success = true;
    resp.oauth = Some(OAuthData {
        oauth_token: "T".to_string(),
        steamid: "1".to_string(),
        wgtoken: "A".to_string(),
        wgtoken_secure: "B".to_string(),
        webcookie: "W".to_string(),
    });
    client.record_login_response(&resp).unwrap();
    let session = client.session.as_ref().unwrap().expose_secret();
    assert_eq!(session.token, "T");
    assert_eq!(session.steam_id, 1);
    assert_eq!(session.session_id, "XYZ");
    assert_eq!(session.steam_login, "1%7C%7CA");
    assert_eq!(session.steam_login_secure, "1%7C%7CB");
    assert_eq!(session.web_cookie, Some("W".to_string()));
}

#[test]
fn login_without_oauth_leaves_the_session_alone() {
    let mut client = SteamApiClient::new(None);
    client.record_login_response(&empty_response()).unwrap();
    assert!(client.session.is_none());
}

#[test]
fn malformed_account_id_fails_session_materialization() {
    let mut client = SteamApiClient::new(None);
    client.save_cookies_from_response(&vec!["sessionid=XYZ".to_string()]);
    let mut resp = empty_response();
    resp.oauth = Some(OAuthData {
        oauth_token: "T".to_string(),
        steamid: "not-numeric".to_string(),
        wgtoken: "A".to_string(),
        wgtoken_secure: "B".to_string(),
        webcookie: "W".to_string(),
    });
    let r = client.record_login_response(&resp);
    assert!(matches!(r, Err(ApiError::MalformedSession)));
    assert!(client.session.is_none());
}

#[test]
fn transfer_plan_relays_once_per_url() {
    let mut resp = empty_response();
    resp.transfer_urls = Some(vec!["https://one.example".to_string(), "https://two.example".to_string()]);
    resp.transfer_parameters = Some(sample_transfer_parameters());
    let plan = transfer_plan(resp).unwrap();
    assert_eq!(
        plan.urls,
        vec!["https://one.example".to_string(), "https://two.example".to_string()]
    );
    assert_eq!(plan.parameters.auth, "AUTH");
}

#[test]
fn transfer_session_carries_the_transfer_credentials() {
    let mut client = SteamApiClient::new(None);
    client.save_cookies_from_response(&vec!["sessionid=XYZ".to_string()]);
    let params = sample_transfer_parameters();
    let oauth = client.complete_transfer(&params).unwrap();
    assert_eq!(oauth.oauth_token, "AUTH");
    assert_eq!(oauth.wgtoken, "S");
    assert_eq!(oauth.wgtoken_secure, "S");
    let session = client.session.as_ref().unwrap().expose_secret();
    assert_eq!(session.token, "AUTH");
    assert_eq!(session.steam_id, 1);
    assert_eq!(session.session_id, "XYZ");
    assert_eq!(session.steam_login, "1%7C%7CS");
    assert_eq!(session.steam_login_secure, "1%7C%7CS");
}

#[test]
fn missing_both_transfer_pieces_is_no_credentials() {
    let r = transfer_plan(empty_response());
    assert!(matches!(r, Err(ApiError::NoCredentials)));
}

#[test]
fn missing_transfer_parameters_is_a_distinct_protocol_error() {
    let mut resp = empty_response();
    resp.transfer_urls = Some(vec!["https://one.example".to_string()]);
    let r = transfer_plan(resp);
    assert!(matches!(r, Err(ApiError::MissingTransferParameters)));
}

#[test]
fn missing_transfer_urls_is_a_distinct_protocol_error() {
    let mut resp = empty_response();
    resp.transfer_parameters = Some(sample_transfer_parameters());
    let r = transfer_plan(resp);
    assert!(matches!(r, Err(ApiError::MissingTransferUrls)));
}

#[test]
fn error_descriptions_name_the_failure() {
    assert_eq!(
        ApiError::NoCredentials.describe(),
        "did not receive transfer_urls and transfer_parameters"
    );
    assert_eq!(ApiError::MissingTransferParameters.describe(), "did not receive transfer_parameters");
    assert_eq!(ApiError::MissingTransferUrls.describe(), "did not receive transfer_urls");
    assert_eq!(
        ApiError::Decode("{oops".to_string()).describe(),
        "failed to decode response: {oops"
    );
}

#[test]
fn prepare_request_reports_the_cookie_header() {
    let mut client = SteamApiClient::new(None);
    let header = client.prepare_request();
    assert_eq!(
        header,
        "mobileClientVersion=0 (2.1.3); mobileClient=android; Steam_Language=english"
    );
    let again = client.prepare_request();
    assert_eq!(header, again);
}

#[test]
fn prepare_request_asserts_the_session_cookie() {
    let mut client = SteamApiClient::new(None);
    client.save_cookies_from_response(&vec!["sessionid=XYZ".to_string()]);
    let mut resp = empty_response();
    resp.oauth = Some(OAuthData {
        oauth_token: "T".to_string(),
        steamid: "1".to_string(),
        wgtoken: "A".to_string(),
        wgtoken_secure: "B".to_string(),
        webcookie: "W".to_string(),
    });
    client.record_login_response(&resp).unwrap();
    let header = client.prepare_request();
    assert!(header.contains("sessionid=XYZ"));
    assert!(header.contains("mobileClient=android"));
}

#[test]
fn login_params_carry_the_documented_fields() {
    let params = login_params("alice", "ENC", "2FA", "EMAIL", "GID", "CAPTCHA", "1234", 99000);
    let expected = vec![
        ("donotcache", "99000"),
        ("username", "alice"),
        ("password", "ENC"),
        ("twofactorcode", "2FA"),
        ("emailauth", "EMAIL"),
        ("captchagid", "GID"),
        ("captcha_text", "CAPTCHA"),
        ("rsatimestamp", "1234"),
        ("remember_login", "true"),
        ("oauth_client_id", "DE45CD61"),
        ("oauth_scope", "read_profile write_profile read_client write_client"),
    ];
    assert_eq!(params.len(), expected.len());
    for (got, want) in params.iter().zip(expected.iter()) {
        assert_eq!(got.0, want.0);
        assert_eq!(got.1, want.1);
    }
}
