use xodus_auth::key::ProofKey;
use xodus_auth::params::DeviceKind;
use xodus_auth::sisu::{
    do_sisu, DeviceToken, IssuedToken, LegacyToken, PolicyReference, SisuAction, SisuError,
    SisuEvent, SisuState, SisuStep, SisuTitle, Token, UserTokenOutcome,
};

type Step = SisuStep<u8, &'static str, &'static str>;
type State = SisuState<u8>;
type Event = SisuEvent<u8, &'static str, &'static str>;

fn step(state: State, event: Event) -> Step {
    do_sisu(state, event)
}

fn title() -> SisuTitle {
    SisuTitle { client_id: "000000004CC9D265".to_string(), title_id: 1842668909 }
}

fn legacy(body: &str) -> LegacyToken {
    LegacyToken { key_name: None, body: body.to_string() }
}

fn compact(address: &str, token: &str) -> IssuedToken {
    IssuedToken { address: address.to_string(), token: Token::Compact(token.to_string()) }
}

fn exchanging_user() -> State {
    SisuState::ExchangingUser { title: title(), device_ticket: "dt".to_string() }
}

fn saving(tokens: Vec<IssuedToken>) -> State {
    SisuState::Saving { title: title(), device_ticket: "dt".to_string(), tokens }
}

fn error_of(step: Step) -> SisuError<&'static str> {
    assert!(matches!(step.state, SisuState::Finished));
    match step.action {
        SisuAction::Fail(error) => error,
        _ => panic!("no failure"),
    }
}

fn is_unexpected(step: Step) -> bool {
    matches!(error_of(step), SisuError::Unexpected)
}

fn is_call(step: Step, text: &str) -> bool {
    matches!(error_of(step), SisuError::Call(e) if e == text)
}

fn run(key: Option<ProofKey>) -> Vec<&'static str> {
    let mut asked = Vec::new();
    let s = step(SisuState::Start { title: title() }, SisuEvent::Begin);
    assert!(matches!(s.action, SisuAction::FindUser));
    let s = step(s.state, SisuEvent::UserFound(Ok(Token::Legacy(legacy("user")))));
    assert!(matches!(s.action, SisuAction::FindDevice));
    let s = step(s.state, SisuEvent::DeviceFound(Ok(Token::Legacy(legacy("device")))));
    match &s.action {
        SisuAction::ExchangeDevice { device, app_id, scope, policy } => {
            assert_eq!(device.body, "device");
            assert_eq!(app_id, "{28C08266-F973-4AE6-FFE4-409B249F138F}");
            assert_eq!(
                scope,
                "scope=service::user.auth.xboxlive.com::MBI_SSL&api-version=2.0"
            );
            assert_eq!(*policy, Some(PolicyReference::TokenBroker));
        }
        _ => panic!("no exchange of the device"),
    }
    let s = step(s.state, SisuEvent::DeviceExchanged(Ok(Token::Compact("dt".to_string()))));
    match &s.action {
        SisuAction::ExchangeUser { user, user_name, device, extra, prompt, client_id, scopes } => {
            assert_eq!(user.body, "user");
            assert_eq!(user_name, "USERNAME");
            assert_eq!(device.body, "device");
            assert_eq!(*extra, None);
            assert_eq!(prompt.as_deref(), Some("Silent"));
            assert_eq!(client_id, "000000004CC9D265");
            assert_eq!(scopes.len(), 2);
            assert_eq!(
                scopes[0].address,
                "scope=xboxlive.signin&api-version=2.0&clientid=000000004CC9D265"
            );
            assert_eq!(scopes[0].policy, Some(PolicyReference::TokenBroker));
            assert_eq!(scopes[1].address, "http://Passport.NET/tb");
            assert_eq!(scopes[1].policy, None);
        }
        _ => panic!("no exchange of the user"),
    }
    let tokens = vec![compact("a", "ticket"), compact("b", "middle"), compact("c", "renewed")];
    let s = step(s.state, SisuEvent::UserExchanged(Ok(UserTokenOutcome::Issued(tokens))));
    match &s.action {
        SisuAction::Save { name, token } => {
            assert_eq!(name, "c");
            assert!(matches!(token, Token::Compact(text) if text == "renewed"));
        }
        _ => panic!("nothing to save"),
    }
    let s = step(s.state, SisuEvent::Saved(Err("disk full")));
    match &s.action {
        SisuAction::Build(setup) => {
            assert_eq!(setup.app.client_id, "000000004CC9D265");
            assert_eq!(setup.app.title_id.as_deref(), Some("1842668909"));
            assert!(setup.app.auth_scopes.is_empty());
            assert_eq!(setup.app.redirect_uri, None);
            assert_eq!(setup.app.client_secret, None);
            assert_eq!(setup.client.user_agent, "XAL GRTS 2025.11.20251105.000");
            assert!(matches!(setup.client.device_type, DeviceKind::Win32));
            assert_eq!(setup.client.client_version, "10.0.22621");
            assert_eq!(setup.client.query_display, "");
            assert_eq!(setup.sandbox_id, "RETAIL");
        }
        _ => panic!("nothing to build"),
    }
    let s = step(s.state, SisuEvent::Built);
    assert!(matches!(s.action, SisuAction::SettleKey));
    asked.push("key");
    let mut s = step(s.state, SisuEvent::KeySettled(key));
    if let SisuAction::Sign(key) = &s.action {
        assert_eq!(key.to_bytes(), vec![3; 32]);
        asked.push("sign");
        s = step(s.state, SisuEvent::Signed);
    }
    match &s.action {
        SisuAction::RequestDevice { device_ticket } => assert_eq!(device_ticket, "dt"),
        _ => panic!("no device token requested"),
    }
    asked.push("device");
    let issued = DeviceToken { token: "xbox device".to_string(), details: 42 };
    let s = step(s.state, SisuEvent::DeviceIssued(Ok(issued)));
    match &s.action {
        SisuAction::Authorize { user_ticket, device_token, session_id } => {
            assert_eq!(user_ticket, "ticket");
            assert_eq!(device_token, "xbox device");
            assert_eq!(*session_id, None);
        }
        _ => panic!("SISU not asked"),
    }
    asked.push("sisu");
    let s = step(s.state, SisuEvent::Authorized(Ok("answer")));
    match s.action {
        SisuAction::Finish { answer, xbox_device } => {
            assert_eq!(answer, "answer");
            assert_eq!(xbox_device.token, "xbox device");
            assert_eq!(xbox_device.details, 42);
        }
        _ => panic!("not finished"),
    }
    asked
}

#[test]
fn a_title_is_authorized_with_the_settled_key() {
    let key = ProofKey::from_slice(&[3; 32]);
    assert!(key.is_some());
    assert_eq!(run(key), vec!["key", "sign", "device", "sisu"]);
}

#[test]
fn a_title_is_authorized_without_a_key() {
    assert_eq!(run(None), vec!["key", "device", "sisu"]);
}

#[test]
fn the_name_of_a_key_comes_before_an_address() {
    let named = LegacyToken { key_name: Some("name".to_string()), body: "b".to_string() };
    let last = IssuedToken { address: "address".to_string(), token: Token::Legacy(named) };
    let tokens = vec![compact("a", "ticket"), last];
    let s = step(
        exchanging_user(),
        SisuEvent::UserExchanged(Ok(UserTokenOutcome::Issued(tokens))),
    );
    match s.action {
        SisuAction::Save { name, token: Token::Legacy(token) } => {
            assert_eq!(name, "name");
            assert_eq!(token.key_name.as_deref(), Some("name"));
            assert_eq!(token.body, "b");
        }
        _ => panic!("nothing to save"),
    }
    let unnamed =
        IssuedToken { address: "address".to_string(), token: Token::Legacy(legacy("b")) };
    let tokens = vec![compact("a", "ticket"), unnamed];
    let s = step(
        exchanging_user(),
        SisuEvent::UserExchanged(Ok(UserTokenOutcome::Issued(tokens))),
    );
    assert!(matches!(s.action, SisuAction::Save { name, .. } if name == "address"));
}

#[test]
fn a_single_issued_token_is_still_saved() {
    let s = step(
        exchanging_user(),
        SisuEvent::UserExchanged(Ok(UserTokenOutcome::Issued(vec![compact("a", "only")]))),
    );
    assert!(matches!(&s.action, SisuAction::Save { name, .. } if name == "a"));
    assert!(matches!(&s.state, SisuState::Saving { tokens, .. } if tokens.is_empty()));
}

#[test]
fn saving_decides_nothing() {
    let saved = step(saving(vec![compact("a", "ticket")]), SisuEvent::Saved(Ok(())));
    let lost = step(saving(vec![compact("a", "ticket")]), SisuEvent::Saved(Err("lost")));
    for s in [saved, lost] {
        assert!(matches!(s.action, SisuAction::Build(_)));
        assert!(
            matches!(s.state, SisuState::Building { user_ticket, .. } if user_ticket == "ticket")
        );
    }
}

#[test]
fn tokens_in_the_wrong_form_are_refused() {
    let compact_token = || Token::Compact("c".to_string());
    let s = step(
        SisuState::FindingUser { title: title() },
        SisuEvent::UserFound(Ok(compact_token())),
    );
    assert!(is_unexpected(s));
    let finding = SisuState::FindingDevice { title: title(), user: legacy("user") };
    assert!(is_unexpected(step(finding, SisuEvent::DeviceFound(Ok(compact_token())))));
    let exchanging = SisuState::ExchangingDevice {
        title: title(),
        user: legacy("user"),
        device: legacy("device"),
    };
    let answer = SisuEvent::DeviceExchanged(Ok(Token::Legacy(legacy("l"))));
    assert!(is_unexpected(step(exchanging, answer)));
    let answer = SisuEvent::UserExchanged(Ok(UserTokenOutcome::Other));
    assert!(is_unexpected(step(exchanging_user(), answer)));
    let first = IssuedToken { address: "a".to_string(), token: Token::Legacy(legacy("l")) };
    assert!(is_unexpected(step(saving(vec![first]), SisuEvent::Saved(Ok(())))));
}

#[test]
fn errors_of_calls_are_passed_on() {
    let s = step(SisuState::FindingUser { title: title() }, SisuEvent::UserFound(Err("1")));
    assert!(is_call(s, "1"));
    let finding = SisuState::FindingDevice { title: title(), user: legacy("user") };
    assert!(is_call(step(finding, SisuEvent::DeviceFound(Err("2"))), "2"));
    let exchanging = SisuState::ExchangingDevice {
        title: title(),
        user: legacy("user"),
        device: legacy("device"),
    };
    assert!(is_call(step(exchanging, SisuEvent::DeviceExchanged(Err("3"))), "3"));
    assert!(is_call(step(exchanging_user(), SisuEvent::UserExchanged(Err("4"))), "4"));
    let requesting = SisuState::RequestingDevice { user_ticket: "t".to_string() };
    assert!(is_call(step(requesting, SisuEvent::DeviceIssued(Err("5"))), "5"));
}

#[test]
fn a_refusal_by_sisu_is_reported() {
    let requesting = SisuState::RequestingDevice { user_ticket: "t".to_string() };
    let issued = DeviceToken { token: "xbox device".to_string(), details: 42 };
    let s = step(requesting, SisuEvent::DeviceIssued(Ok(issued)));
    assert!(matches!(s.action, SisuAction::Authorize { .. }));
    assert!(is_call(step(s.state, SisuEvent::Authorized(Err("refused"))), "refused"));
}
