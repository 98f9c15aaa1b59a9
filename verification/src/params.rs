//! The parameters that an Xbox Live authenticator is built from.

use vstd::prelude::*;
use vstd::string::*;

verus! {

/// The kind of device that a client claims to be.
pub enum DeviceKind {
    Ios,
    Android,
    Win32,
    Nintendo,
    /// One that the caller names.
    Custom(String),
}

/// What is put in front of an access token.
#[derive(Clone, Copy, Debug, PartialEq, Eq, Structural)]
pub enum AccessTokenPrefix {
    /// The text `d=`.
    D,
    /// The text `t=`.
    T,
    /// Nothing.
    Bare,
}

/// The application that asks for tokens.
pub struct AppParameters {
    /// OAuth2 client id.
    pub client_id: String,
    /// Title id, in decimal.
    pub title_id: Option<String>,
    /// OAuth2 scopes.
    pub auth_scopes: Vec<String>,
    /// Where OAuth2 redirects to.
    pub redirect_uri: Option<String>,
    /// OAuth2 client secret.
    pub client_secret: Option<String>,
}

/// The client software that asks for tokens.
pub struct ClientParameters {
    /// HTTP user agent.
    pub user_agent: String,
    /// Kind of device.
    pub device_type: DeviceKind,
    /// Version of the operating system.
    pub client_version: String,
    /// How a login page is to be displayed.
    pub query_display: String,
}

/// Everything that an authenticator is built from.
pub struct AuthenticatorSetup {
    pub app: AppParameters,
    pub client: ClientParameters,
    /// Xbox Live sandbox.
    pub sandbox_id: String,
}

/// The sandbox that every authenticator here works in.
pub const SANDBOX: &'static str = "RETAIL";

/// The OAuth2 client id of the service.
pub const SERVICE_CLIENT_ID: &'static str = "000000004424da1f";

/// The title id of the service.
pub const SERVICE_TITLE_ID: &'static str = "704208617";

/// The scope that lets a token authenticate a user to Xbox Live.
pub open spec fn scope_service_user_auth() -> Seq<char> {
    "service::user.auth.xboxlive.com::MBI_SSL"@
}

/// The redirect URL for desktop applications.
pub open spec fn oauth20_desktop_redirect_url() -> Seq<char> {
    "https://login.live.com/oauth20_desktop.srf"@
}

/// The relying party of Xbox Live.
pub open spec fn relying_party_xboxlive() -> Seq<char> {
    "http://xboxlive.com"@
}

/// Whether `p` are the parameters of the service's own application.
pub open spec fn is_service_app(p: AppParameters) -> bool {
    &&& p.client_id@ == SERVICE_CLIENT_ID@
    &&& p.title_id matches Some(title_id)
    &&& title_id@ == SERVICE_TITLE_ID@
    &&& p.auth_scopes@.len() == 1
    &&& p.auth_scopes@[0]@ == scope_service_user_auth()
    &&& p.redirect_uri matches Some(url)
    &&& url@ == oauth20_desktop_redirect_url()
    &&& p.client_secret is None
}

/// Whether `c` are the parameters of a Windows desktop client.
pub open spec fn is_windows_client(c: ClientParameters) -> bool {
    &&& c.user_agent@ == "XAL GRTS 2024.02.20240220.000"@
    &&& c.device_type is Win32
    &&& c.client_version@ == "10.0.22621.4196"@
    &&& c.query_display@ == "none"@
}

/// Whether `s` sets an authenticator up for the service's own application on a
/// Windows desktop client.
pub open spec fn is_service_setup(s: AuthenticatorSetup) -> bool {
    &&& is_service_app(s.app)
    &&& is_windows_client(s.client)
    &&& s.sandbox_id@ == SANDBOX@
}

/// Reads `xal::Constants::SCOPE_SERVICE_USER_AUTH`.
///
/// Claimed: which text the constant holds.
#[verifier::external_body]
fn xal_scope_service_user_auth() -> (r: String)
    ensures
        r@ == scope_service_user_auth(),
{
    xal::Constants::SCOPE_SERVICE_USER_AUTH.to_owned()
}

/// Reads `xal::Constants::OAUTH20_DESKTOP_REDIRECT_URL`.
///
/// Claimed: which text the constant holds.
#[verifier::external_body]
fn xal_oauth20_desktop_redirect_url() -> (r: String)
    ensures
        r@ == oauth20_desktop_redirect_url(),
{
    xal::Constants::OAUTH20_DESKTOP_REDIRECT_URL.to_owned()
}

/// Reads `xal::Constants::RELYING_PARTY_XBOXLIVE`.
///
/// Claimed: which text the constant holds.
#[verifier::external_body]
pub(crate) fn xal_relying_party_xboxlive() -> (r: String)
    ensures
        r@ == relying_party_xboxlive(),
{
    xal::Constants::RELYING_PARTY_XBOXLIVE.to_owned()
}

/// Calls `xal::oauth2::RedirectUrl::new`, and takes the text back out of the
/// URL it gives.
///
/// Claimed: the redirect URL for desktop applications parses as a URL, so the
/// call succeeds on it, and keeps the text unchanged. Of other texts nothing
/// is claimed.
#[verifier::external_body]
fn redirect_url(url: String) -> (r: Option<String>)
    requires
        url@ == oauth20_desktop_redirect_url(),
    ensures
        r is Some,
        r->0@ == url@,
{
    xal::oauth2::RedirectUrl::new(url).ok().map(|url| url.to_string())
}

/// Calls `xal::client_params::CLIENT_WINDOWS` for the fields of what it gives.
///
/// Claimed: which texts the fields hold, and that the device is a Windows one.
#[verifier::external_body]
fn xal_client_windows() -> (r: ClientParameters)
    ensures
        is_windows_client(r),
{
    let client = xal::client_params::CLIENT_WINDOWS();
    ClientParameters {
        user_agent: client.user_agent,
        device_type: match client.device_type {
            xal::DeviceType::IOS => DeviceKind::Ios,
            xal::DeviceType::ANDROID => DeviceKind::Android,
            xal::DeviceType::WIN32 => DeviceKind::Win32,
            xal::DeviceType::NINTENDO => DeviceKind::Nintendo,
            xal::DeviceType::Custom(name) => DeviceKind::Custom(name),
        },
        client_version: client.client_version,
        query_display: client.query_display,
    }
}

/// The parameters of the service's own application.
pub fn get_app_params() -> (r: AppParameters)
    ensures
        is_service_app(r),
{
    let redirect_uri = redirect_url(xal_oauth20_desktop_redirect_url()).unwrap();
    let mut auth_scopes: Vec<String> = Vec::new();
    auth_scopes.push(xal_scope_service_user_auth());
    AppParameters {
        client_id: SERVICE_CLIENT_ID.to_owned(),
        title_id: Some(SERVICE_TITLE_ID.to_owned()),
        auth_scopes,
        redirect_uri: Some(redirect_uri),
        client_secret: None,
    }
}

/// What the service's own authenticators are built from.
pub fn service_setup() -> (r: AuthenticatorSetup)
    ensures
        is_service_setup(r),
{
    AuthenticatorSetup {
        app: get_app_params(),
        client: xal_client_windows(),
        sandbox_id: SANDBOX.to_owned(),
    }
}

/// The parameters of the service's own application are those that its
/// authenticators are built with: the service's ids, the one scope that lets a
/// token authenticate a user, the redirect for desktop applications, and no
/// secret.
pub proof fn law_app_params(app: AppParameters, setup: AuthenticatorSetup)
    requires
        call_ensures(get_app_params, (), app),
        call_ensures(service_setup, (), setup),
    ensures
        app.client_id@ == "000000004424da1f"@,
        setup.app.client_id@ == app.client_id@,
        app.title_id matches Some(id) && id@ == "704208617"@,
        setup.app.title_id matches Some(id) && id@ == app.title_id->0@,
        app.auth_scopes@.len() == 1,
        app.auth_scopes@[0]@ == "service::user.auth.xboxlive.com::MBI_SSL"@,
        setup.app.auth_scopes@.len() == 1,
        setup.app.auth_scopes@[0]@ == app.auth_scopes@[0]@,
        app.redirect_uri matches Some(url) && url@ == "https://login.live.com/oauth20_desktop.srf"@,
        setup.app.redirect_uri matches Some(url) && url@ == app.redirect_uri->0@,
        app.client_secret is None,
        setup.app.client_secret is None,
        setup.sandbox_id@ == "RETAIL"@,
{
}

} // verus!
