//! The provider's endpoint addresses and the fixed client-identification
//! headers, resolved in one place and handed to the transport explicitly.

use vstd::prelude::*;

verus! {

/// The address of the primary login endpoint.
pub fn login_url() -> (r: String)
    ensures
        r@ == "https://steamcommunity.com/login/dologin"@,
{
    "https://steamcommunity.com/login/dologin".to_owned()
}

/// The address pinged to refresh the session cookies.
pub fn session_refresh_url() -> (r: String)
    ensures
        r@
            == "https://steamcommunity.com/login?oauth_client_id=DE45CD61&oauth_scope=read_profile%20write_profile%20read_client%20write_client"@,
{
    "https://steamcommunity.com/login?oauth_client_id=DE45CD61&oauth_scope=read_profile%20write_profile%20read_client%20write_client".to_owned()
}

/// The address of the server-time query endpoint.
pub fn query_time_url() -> (r: String)
    ensures
        r@ == "https://api.steampowered.com/ITwoFactorService/QueryTime/v0001"@,
{
    "https://api.steampowered.com/ITwoFactorService/QueryTime/v0001".to_owned()
}

/// The address of the authenticator-enrollment endpoint.
pub fn add_authenticator_url() -> (r: String)
    ensures
        r@ == "https://api.steampowered.com/ITwoFactorService/AddAuthenticator/v0001"@,
{
    "https://api.steampowered.com/ITwoFactorService/AddAuthenticator/v0001".to_owned()
}

/// The address of the enrollment-finalization endpoint.
pub fn finalize_authenticator_url() -> (r: String)
    ensures
        r@ == "https://api.steampowered.com/ITwoFactorService/FinalizeAddAuthenticator/v0001"@,
{
    "https://api.steampowered.com/ITwoFactorService/FinalizeAddAuthenticator/v0001".to_owned()
}

/// The address of the authenticator-removal endpoint.
pub fn remove_authenticator_url() -> (r: String)
    ensures
        r@ == "https://api.steampowered.com/ITwoFactorService/RemoveAuthenticator/v0001"@,
{
    "https://api.steampowered.com/ITwoFactorService/RemoveAuthenticator/v0001".to_owned()
}

/// The address of the multi-purpose phone ajax endpoint.
pub fn phoneajax_url() -> (r: String)
    ensures
        r@ == "https://steamcommunity.com/steamguard/phoneajax"@,
{
    "https://steamcommunity.com/steamguard/phoneajax".to_owned()
}

/// The address of the phone-add ajax endpoint.
pub fn phone_add_ajaxop_url() -> (r: String)
    ensures
        r@ == "https://store.steampowered.com/phone/add_ajaxop"@,
{
    "https://store.steampowered.com/phone/add_ajaxop".to_owned()
}

/// The address of the phone-number validation endpoint.
pub fn phone_validate_url() -> (r: String)
    ensures
        r@ == "https://store.steampowered.com/phone/validate"@,
{
    "https://store.steampowered.com/phone/validate".to_owned()
}

/// The custom user-agent string every request carries.
pub fn user_agent() -> (r: String)
    ensures
        r@
            == "Mozilla/5.0 (Linux; U; Android 4.1.1; en-us; Google Nexus 4 - 4.1.1 - API 16 - 768x1280 Build/JRO03S) AppleWebKit/534.30 (KHTML, like Gecko) Version/4.0 Mobile Safari/534.30"@,
{
    "Mozilla/5.0 (Linux; U; Android 4.1.1; en-us; Google Nexus 4 - 4.1.1 - API 16 - 768x1280 Build/JRO03S) AppleWebKit/534.30 (KHTML, like Gecko) Version/4.0 Mobile Safari/534.30".to_owned()
}

/// The name of the mobile-app identification header every request carries.
pub fn requested_with_header_name() -> (r: String)
    ensures
        r@ == "X-Requested-With"@,
{
    "X-Requested-With".to_owned()
}

/// The value of the mobile-app identification header.
pub fn requested_with_header_value() -> (r: String)
    ensures
        r@ == "com.valvesoftware.android.steam.community"@,
{
    "com.valvesoftware.android.steam.community".to_owned()
}

} // verus!
