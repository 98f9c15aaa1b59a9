use xodus_auth::params::{
    get_app_params, service_setup, AccessTokenPrefix, AuthenticatorSetup, DeviceKind,
};
use xodus_auth::session::{
    get_xsts_token, start_new_session, SessionAction, SessionEvent, SessionState,
};

fn check_service_setup(setup: &AuthenticatorSetup) {
    let windows = xal::client_params::CLIENT_WINDOWS();
    assert_eq!(setup.app.client_id, "000000004424da1f");
    assert_eq!(setup.client.user_agent, windows.user_agent);
    assert_eq!(setup.client.client_version, windows.client_version);
    assert_eq!(setup.client.query_display, windows.query_display);
    assert!(matches!(setup.client.device_type, DeviceKind::Win32));
    assert_eq!(windows.device_type, xal::DeviceType::WIN32);
    assert_eq!(setup.sandbox_id, "RETAIL");
}

#[test]
fn the_application_of_the_service() {
    let app = get_app_params();
    assert_eq!(app.client_id, "000000004424da1f");
    assert_eq!(app.title_id.as_deref(), Some("704208617"));
    assert_eq!(app.auth_scopes, vec!["service::user.auth.xboxlive.com::MBI_SSL".to_string()]);
    assert_eq!(app.auth_scopes[0], xal::Constants::SCOPE_SERVICE_USER_AUTH);
    let url = "https://login.live.com/oauth20_desktop.srf";
    assert_eq!(app.redirect_uri.as_deref(), Some(url));
    assert_eq!(url, xal::Constants::OAUTH20_DESKTOP_REDIRECT_URL);
    assert_eq!(app.client_secret, None);
}

#[test]
fn the_client_of_the_service() {
    let setup = service_setup();
    check_service_setup(&setup);
    assert_eq!(setup.client.user_agent, "XAL GRTS 2024.02.20240220.000");
    assert_eq!(setup.client.client_version, "10.0.22621.4196");
    assert_eq!(setup.client.query_display, "none");
}

#[test]
fn a_session_signs_in_and_is_authorized() {
    let step = start_new_session::<u8, &str, String>(SessionState::Start, SessionEvent::Begin);
    match &step.action {
        SessionAction::SignIn { setup, implicit } => {
            check_service_setup(setup);
            assert!(*implicit);
        }
        _ => panic!("no sign in"),
    }
    let step = start_new_session::<u8, &str, String>(step.state, SessionEvent::SignedIn(Ok(5)));
    match &step.action {
        SessionAction::Authorize { live_token, relying_party, prefix, request_title_token } => {
            assert_eq!(*live_token, 5);
            assert_eq!(relying_party, "http://xboxlive.com");
            assert_eq!(relying_party, xal::Constants::RELYING_PARTY_XBOXLIVE);
            assert_eq!(*prefix, AccessTokenPrefix::Bare);
            assert!(!*request_title_token);
        }
        _ => panic!("no authorization"),
    }
    let step =
        start_new_session::<u8, &str, String>(step.state, SessionEvent::Authorized(Ok("tokens")));
    assert_eq!(step.state, SessionState::Finished);
    assert!(matches!(step.action, SessionAction::Finish(Ok("tokens"))));
}

#[test]
fn a_session_passes_errors_on() {
    let refused = SessionEvent::SignedIn(Err("no".to_string()));
    let step = start_new_session::<u8, u8, String>(SessionState::SigningIn, refused);
    assert!(matches!(step.action, SessionAction::Finish(Err(e)) if e == "no"));
    let refused = SessionEvent::Authorized(Err("still no".to_string()));
    let step = start_new_session::<u8, u8, String>(SessionState::Authorizing, refused);
    assert!(matches!(step.action, SessionAction::Finish(Err(e)) if e == "still no"));
}

#[test]
fn an_xsts_request_holds_what_it_was_given() {
    let request = get_xsts_token(Some(&1u8), None::<&u16>, Some(&3u32), "http://xboxlive.com");
    check_service_setup(&request.setup);
    assert_eq!(request.device_token, Some(&1));
    assert_eq!(request.title_token, None);
    assert_eq!(request.user_token, Some(&3));
    assert_eq!(request.relying_party, "http://xboxlive.com");
}
