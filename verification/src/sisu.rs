//! Authorizing a title through SISU, with the tokens of a signed in user and
//! of the device.
//!
//! The title token that SISU gives is bound to the device token it was
//! authorized with, and both are bound to the proof key of the authenticator.
//! So the proof key is settled before any of these tokens is requested, and
//! the device token is handed to the caller together with the answer.

use crate::key::ProofKey;
use crate::params::{AppParameters, AuthenticatorSetup, ClientParameters, DeviceKind, SANDBOX};
use crate::text::decimal_of;
use vstd::prelude::*;
use vstd::string::*;

verus! {

/// The application that the token of the device is exchanged for.
pub const DEVICE_APP_ID: &'static str = "{28C08266-F973-4AE6-FFE4-409B249F138F}";

/// What the token of the device is exchanged for.
pub const DEVICE_SCOPE: &'static str =
    "scope=service::user.auth.xboxlive.com::MBI_SSL&api-version=2.0";

/// The scope that a user's token is asked for.
pub const USER_SCOPE: &'static str = "xboxlive.signin";

/// The name that a user's token is exchanged under.
pub const USER_NAME: &'static str = "USERNAME";

/// The prompt that keeps an exchange from asking the user.
pub const PROMPT_SILENT: &'static str = "Silent";

/// The address under which the user's own token is renewed.
pub const PASSPORT_ADDRESS: &'static str = "http://Passport.NET/tb";

/// The user agent that SISU is asked with.
pub const SISU_USER_AGENT: &'static str = "XAL GRTS 2025.11.20251105.000";

/// The version of Windows that SISU is asked with.
pub const SISU_CLIENT_VERSION: &'static str = "10.0.22621";

/// A token in the older form, of which only the name of its key is read here.
pub struct LegacyToken {
    /// The name of the key that the token is kept under.
    pub key_name: Option<String>,
    /// The token as it was issued.
    pub body: String,
}

/// A token that was issued to the user or to the device.
pub enum Token {
    /// One in the older form.
    Legacy(LegacyToken),
    /// One that is a single text.
    Compact(String),
}

/// A token, and the address that it was issued for.
pub struct IssuedToken {
    pub address: String,
    pub token: Token,
}

/// The policy that a token is asked for under.
#[derive(Clone, Copy, Debug, PartialEq, Eq, Structural)]
pub enum PolicyReference {
    TokenBroker,
}

/// One address that a user's token is exchanged for.
pub struct TokenScope {
    pub address: String,
    pub policy: Option<PolicyReference>,
}

/// How exchanging a user's token went, where it was answered.
pub enum UserTokenOutcome {
    /// Tokens were issued, in this order.
    Issued(Vec<IssuedToken>),
    /// Anything else.
    Other,
}

/// A device token of Xbox Live: its text, and what else came with it.
pub struct DeviceToken<D> {
    pub token: String,
    pub details: D,
}

/// Why an authorization failed. `E` is what a call fails with.
pub enum SisuError<E> {
    /// A call failed.
    Call(E),
    /// A call was answered with something that cannot be gone on with.
    Unexpected,
}

/// The title that is authorized.
pub struct SisuTitle {
    /// The id of its application.
    pub client_id: String,
    /// Its title id.
    pub title_id: i64,
}

/// How far an authorization has come.
pub enum SisuState<D> {
    /// Nothing has been asked for yet.
    Start { title: SisuTitle },
    /// The user's token is being looked up.
    FindingUser { title: SisuTitle },
    /// The device's token is being looked up.
    FindingDevice { title: SisuTitle, user: LegacyToken },
    /// The device's token is being exchanged.
    ExchangingDevice { title: SisuTitle, user: LegacyToken, device: LegacyToken },
    /// The user's token is being exchanged.
    ExchangingUser { title: SisuTitle, device_ticket: String },
    /// The user's own token, renewed, is being saved.
    Saving { title: SisuTitle, device_ticket: String, tokens: Vec<IssuedToken> },
    /// The authenticator is being built.
    Building { device_ticket: String, user_ticket: String },
    /// The proof key is being settled.
    SettlingKey { device_ticket: String, user_ticket: String },
    /// The authenticator is being given the proof key.
    Signing { device_ticket: String, user_ticket: String },
    /// The device token is being requested.
    RequestingDevice { user_ticket: String },
    /// SISU is being asked.
    Authorizing { xbox_device: DeviceToken<D> },
    /// The title is authorized, or has been refused.
    Finished,
}

/// What an authorization learns from outside. `R` is what SISU answers with.
pub enum SisuEvent<D, R, E> {
    /// The authorization is wanted.
    Begin,
    /// How looking up the user's token went.
    UserFound(Result<Token, E>),
    /// How looking up the device's token went.
    DeviceFound(Result<Token, E>),
    /// How exchanging the device's token went.
    DeviceExchanged(Result<Token, E>),
    /// How exchanging the user's token went.
    UserExchanged(Result<UserTokenOutcome, E>),
    /// How saving the user's own token went.
    Saved(Result<(), E>),
    /// The authenticator is built.
    Built,
    /// The proof key that was settled on, if there is one.
    KeySettled(Option<ProofKey>),
    /// The authenticator has the proof key.
    Signed,
    /// How requesting the device token went.
    DeviceIssued(Result<DeviceToken<D>, E>),
    /// How asking SISU went.
    Authorized(Result<R, E>),
}

/// What an authorization asks to be done next.
pub enum SisuAction<D, R, E> {
    /// Look up the user's token.
    FindUser,
    /// Look up the device's token.
    FindDevice,
    /// Exchange the device's token.
    ExchangeDevice {
        device: LegacyToken,
        app_id: String,
        scope: String,
        policy: Option<PolicyReference>,
    },
    /// Exchange the user's token.
    ExchangeUser {
        user: LegacyToken,
        user_name: String,
        device: LegacyToken,
        /// An argument of the exchange that is always left out.
        extra: Option<String>,
        prompt: Option<String>,
        client_id: String,
        scopes: Vec<TokenScope>,
    },
    /// Save a token of the user under a name.
    Save { name: String, token: Token },
    /// Build an authenticator.
    Build(AuthenticatorSetup),
    /// Settle on the proof key.
    SettleKey,
    /// Have the authenticator sign with this key.
    Sign(ProofKey),
    /// Request a device token for the device's ticket.
    RequestDevice { device_ticket: String },
    /// Ask SISU to authorize the title.
    Authorize { user_ticket: String, device_token: String, session_id: Option<String> },
    /// Hand SISU's answer and the device token to the caller.
    Finish { answer: R, xbox_device: DeviceToken<D> },
    /// Give up with this error.
    Fail(SisuError<E>),
}

/// The address that a user's token is asked for, on behalf of an application.
pub open spec fn user_scope_address(client_id: Seq<char>) -> Seq<char> {
    "scope="@ + USER_SCOPE@ + "&api-version=2.0&clientid="@ + client_id
}

/// The name that a token is saved under: that of its key, where it has one, or
/// else the address it was issued for.
pub open spec fn save_name(issued: IssuedToken) -> Seq<char> {
    match issued.token {
        Token::Legacy(LegacyToken { key_name: Some(name), .. }) => name@,
        _ => issued.address@,
    }
}

/// Whether `scopes` are the two addresses that a user's token is exchanged for.
pub open spec fn is_user_scopes(scopes: Seq<TokenScope>, client_id: Seq<char>) -> bool {
    &&& scopes.len() == 2
    &&& scopes[0].address@ == user_scope_address(client_id)
    &&& scopes[0].policy == Some(PolicyReference::TokenBroker)
    &&& scopes[1].address@ == PASSPORT_ADDRESS@
    &&& scopes[1].policy is None
}

/// Whether `s` sets an authenticator up for asking SISU about the title.
pub open spec fn is_sisu_setup(s: AuthenticatorSetup, title: SisuTitle) -> bool {
    &&& s.app.client_id@ == title.client_id@
    &&& s.app.title_id matches Some(title_id)
    &&& title_id@ == crate::text::decimal(title.title_id as int)
    &&& s.app.auth_scopes@.len() == 0
    &&& s.app.redirect_uri is None
    &&& s.app.client_secret is None
    &&& s.client.user_agent@ == SISU_USER_AGENT@
    &&& s.client.device_type is Win32
    &&& s.client.client_version@ == SISU_CLIENT_VERSION@
    &&& s.client.query_display@.len() == 0
    &&& s.sandbox_id@ == SANDBOX@
}

/// Whether `event` is what an authorization waits for in `state`. It cannot go
/// on from an exchange that issued no token, or no second one: these are never
/// let in.
pub open spec fn accepts<D, R, E>(state: SisuState<D>, event: SisuEvent<D, R, E>) -> bool {
    match (state, event) {
        (SisuState::Start { .. }, SisuEvent::Begin) => true,
        (SisuState::FindingUser { .. }, SisuEvent::UserFound(_)) => true,
        (SisuState::FindingDevice { .. }, SisuEvent::DeviceFound(_)) => true,
        (SisuState::ExchangingDevice { .. }, SisuEvent::DeviceExchanged(_)) => true,
        (
            SisuState::ExchangingUser { .. },
            SisuEvent::UserExchanged(Ok(UserTokenOutcome::Issued(tokens))),
        ) => tokens@.len() > 0,
        (SisuState::ExchangingUser { .. }, SisuEvent::UserExchanged(_)) => true,
        (SisuState::Saving { tokens, .. }, SisuEvent::Saved(_)) => tokens@.len() > 0,
        (SisuState::Building { .. }, SisuEvent::Built) => true,
        (SisuState::SettlingKey { .. }, SisuEvent::KeySettled(_)) => true,
        (SisuState::Signing { .. }, SisuEvent::Signed) => true,
        (SisuState::RequestingDevice { .. }, SisuEvent::DeviceIssued(_)) => true,
        (SisuState::Authorizing { .. }, SisuEvent::Authorized(_)) => true,
        _ => false,
    }
}

/// Whether `t` and `a` end an authorization with the error `error`.
pub open spec fn fails_with<D, R, E>(
    t: SisuState<D>,
    a: SisuAction<D, R, E>,
    error: SisuError<E>,
) -> bool {
    t is Finished && a == SisuAction::<D, R, E>::Fail(error)
}

/// Whether an authorization, in state `s`, answers the event `e` by going to
/// the state `t` and asking for `a`.
pub open spec fn sisu_step<D, R, E>(
    s: SisuState<D>,
    e: SisuEvent<D, R, E>,
    t: SisuState<D>,
    a: SisuAction<D, R, E>,
) -> bool {
    match (s, e) {
        (SisuState::Start { title }, SisuEvent::Begin) => {
            &&& t == SisuState::<D>::FindingUser { title }
            &&& a is FindUser
        },
        (SisuState::FindingUser { title }, SisuEvent::UserFound(found)) => match found {
            Ok(Token::Legacy(user)) => {
                &&& t == SisuState::<D>::FindingDevice { title, user }
                &&& a is FindDevice
            },
            Ok(Token::Compact(_)) => fails_with(t, a, SisuError::Unexpected),
            Err(error) => fails_with(t, a, SisuError::Call(error)),
        },
        (SisuState::FindingDevice { title, user }, SisuEvent::DeviceFound(found)) => match found {
            Ok(Token::Legacy(device)) => {
                &&& t == SisuState::<D>::ExchangingDevice { title, user, device }
                &&& a matches SisuAction::ExchangeDevice { device: sent, app_id, scope, policy }
                &&& sent == device
                &&& app_id@ == DEVICE_APP_ID@
                &&& scope@ == DEVICE_SCOPE@
                &&& policy == Some(PolicyReference::TokenBroker)
            },
            Ok(Token::Compact(_)) => fails_with(t, a, SisuError::Unexpected),
            Err(error) => fails_with(t, a, SisuError::Call(error)),
        },
        (
            SisuState::ExchangingDevice { title, user, device },
            SisuEvent::DeviceExchanged(exchanged),
        ) => match exchanged {
            Ok(Token::Compact(device_ticket)) => {
                &&& t == SisuState::<D>::ExchangingUser { title, device_ticket }
                &&& a matches SisuAction::ExchangeUser {
                    user: sent_user,
                    user_name,
                    device: sent_device,
                    extra,
                    prompt,
                    client_id,
                    scopes,
                }
                &&& sent_user == user
                &&& user_name@ == USER_NAME@
                &&& sent_device == device
                &&& extra is None
                &&& prompt matches Some(text)
                &&& text@ == PROMPT_SILENT@
                &&& client_id@ == title.client_id@
                &&& is_user_scopes(scopes@, title.client_id@)
            },
            Ok(Token::Legacy(_)) => fails_with(t, a, SisuError::Unexpected),
            Err(error) => fails_with(t, a, SisuError::Call(error)),
        },
        (
            SisuState::ExchangingUser { title, device_ticket },
            SisuEvent::UserExchanged(exchanged),
        ) => match exchanged {
            Ok(UserTokenOutcome::Issued(issued)) => {
                &&& issued@.len() > 0
                &&& t matches SisuState::Saving {
                    title: kept_title,
                    device_ticket: kept_ticket,
                    tokens,
                }
                &&& kept_title == title
                &&& kept_ticket == device_ticket
                &&& tokens@ == issued@.drop_last()
                &&& a matches SisuAction::Save { name, token }
                &&& name@ == save_name(issued@.last())
                &&& token == issued@.last().token
            },
            Ok(UserTokenOutcome::Other) => fails_with(t, a, SisuError::Unexpected),
            Err(error) => fails_with(t, a, SisuError::Call(error)),
        },
        (SisuState::Saving { title, device_ticket, tokens }, SisuEvent::Saved(_)) => {
            &&& tokens@.len() > 0
            &&& match tokens@[0].token {
                Token::Compact(user_ticket) => {
                    &&& t == SisuState::<D>::Building { device_ticket, user_ticket }
                    &&& a matches SisuAction::Build(setup)
                    &&& is_sisu_setup(setup, title)
                },
                Token::Legacy(_) => fails_with(t, a, SisuError::Unexpected),
            }
        },
        (SisuState::Building { device_ticket, user_ticket }, SisuEvent::Built) => {
            &&& t == SisuState::<D>::SettlingKey { device_ticket, user_ticket }
            &&& a is SettleKey
        },
        (SisuState::SettlingKey { device_ticket, user_ticket }, SisuEvent::KeySettled(settled)) => {
            match settled {
                Some(key) => {
                    &&& t == SisuState::<D>::Signing { device_ticket, user_ticket }
                    &&& a == SisuAction::<D, R, E>::Sign(key)
                },
                None => {
                    &&& t == SisuState::<D>::RequestingDevice { user_ticket }
                    &&& a == SisuAction::<D, R, E>::RequestDevice { device_ticket }
                },
            }
        },
        (SisuState::Signing { device_ticket, user_ticket }, SisuEvent::Signed) => {
            &&& t == SisuState::<D>::RequestingDevice { user_ticket }
            &&& a == SisuAction::<D, R, E>::RequestDevice { device_ticket }
        },
        (SisuState::RequestingDevice { user_ticket }, SisuEvent::DeviceIssued(issued)) => {
            match issued {
                Ok(xbox_device) => {
                    &&& t == SisuState::Authorizing { xbox_device }
                    &&& a == SisuAction::<D, R, E>::Authorize {
                        user_ticket,
                        device_token: xbox_device.token,
                        session_id: None,
                    }
                },
                Err(error) => fails_with(t, a, SisuError::Call(error)),
            }
        },
        (SisuState::Authorizing { xbox_device }, SisuEvent::Authorized(Ok(answer))) => {
            &&& t is Finished
            &&& a == SisuAction::<D, R, E>::Finish { answer, xbox_device }
        },
        (SisuState::Authorizing { .. }, SisuEvent::Authorized(Err(error))) => fails_with(
            t,
            a,
            SisuError::Call(error),
        ),
        _ => false,
    }
}

/// Where an authorization stands after an event, and what it asks for.
pub struct SisuStep<D, R, E> {
    pub state: SisuState<D>,
    pub action: SisuAction<D, R, E>,
}

impl<D, R, E> SisuStep<D, R, E> {
    /// The end of an authorization, with this error.
    fn fail(error: SisuError<E>) -> (r: SisuStep<D, R, E>)
        ensures
            fails_with(r.state, r.action, error),
    {
        SisuStep { state: SisuState::Finished, action: SisuAction::Fail(error) }
    }
}

/// A second token that is the same as `token`.
fn same_token(token: &LegacyToken) -> (r: LegacyToken)
    ensures
        r == *token,
{
    let key_name = match &token.key_name {
        Some(name) => Some(name.clone()),
        None => None,
    };
    LegacyToken { key_name, body: token.body.clone() }
}

/// The address that a user's token is asked for, on behalf of an application.
fn user_scope(client_id: &str) -> (r: String)
    ensures
        r@ == user_scope_address(client_id@),
{
    let mut address = "scope=".to_owned();
    address.append(USER_SCOPE);
    address.append("&api-version=2.0&clientid=");
    address.append(client_id);
    address
}

/// The addresses that a user's token is exchanged for.
fn user_scopes(client_id: &str) -> (r: Vec<TokenScope>)
    ensures
        is_user_scopes(r@, client_id@),
{
    let mut scopes: Vec<TokenScope> = Vec::new();
    scopes.push(
        TokenScope {
            address: user_scope(client_id),
            policy: Some(PolicyReference::TokenBroker),
        },
    );
    scopes.push(TokenScope { address: PASSPORT_ADDRESS.to_owned(), policy: None });
    scopes
}

/// What the authenticator that asks SISU about the title is built from.
fn sisu_setup(title: SisuTitle) -> (r: AuthenticatorSetup)
    ensures
        is_sisu_setup(r, title),
{
    AuthenticatorSetup {
        app: AppParameters {
            title_id: Some(decimal_of(title.title_id)),
            client_id: title.client_id,
            auth_scopes: Vec::new(),
            redirect_uri: None,
            client_secret: None,
        },
        client: ClientParameters {
            user_agent: SISU_USER_AGENT.to_owned(),
            device_type: DeviceKind::Win32,
            client_version: SISU_CLIENT_VERSION.to_owned(),
            query_display: String::new(),
        },
        sandbox_id: SANDBOX.to_owned(),
    }
}

/// Saves the last token that was issued, which is the user's own.
fn save_last<D, R, E>(title: SisuTitle, device_ticket: String, tokens: Vec<IssuedToken>) -> (r:
    SisuStep<D, R, E>)
    requires
        tokens@.len() > 0,
    ensures
        sisu_step(
            SisuState::ExchangingUser { title, device_ticket },
            SisuEvent::<D, R, E>::UserExchanged(Ok(UserTokenOutcome::Issued(tokens))),
            r.state,
            r.action,
        ),
{
    let mut tokens = tokens;
    let last = tokens.pop().unwrap();
    let name = match &last.token {
        Token::Legacy(LegacyToken { key_name: Some(name), .. }) => name.clone(),
        _ => last.address,
    };
    SisuStep {
        state: SisuState::Saving { title, device_ticket, tokens },
        action: SisuAction::Save { name, token: last.token },
    }
}

/// Takes the first token that was issued, which is the user's ticket.
fn take_first<D, R, E>(title: SisuTitle, device_ticket: String, tokens: Vec<IssuedToken>) -> (r:
    SisuStep<D, R, E>)
    requires
        tokens@.len() > 0,
    ensures
        forall|saved: Result<(), E>|
            #[trigger] sisu_step(
                SisuState::Saving { title, device_ticket, tokens },
                SisuEvent::<D, R, E>::Saved(saved),
                r.state,
                r.action,
            ),
{
    let mut tokens = tokens;
    let first = tokens.remove(0);
    match first.token {
        Token::Compact(user_ticket) => SisuStep {
            state: SisuState::Building { device_ticket, user_ticket },
            action: SisuAction::Build(sisu_setup(title)),
        },
        Token::Legacy(_) => SisuStep::fail(SisuError::Unexpected),
    }
}

/// Authorizes a title through SISU, one step at a time. It starts in
/// `SisuState::Start` and is over with `SisuAction::Finish` or
/// `SisuAction::Fail`.
pub fn do_sisu<D, R, E>(state: SisuState<D>, event: SisuEvent<D, R, E>) -> (r: SisuStep<D, R, E>)
    requires
        accepts(state, event),
    ensures
        sisu_step(state, event, r.state, r.action),
{
    match (state, event) {
        (SisuState::Start { title }, _) => SisuStep {
            state: SisuState::FindingUser { title },
            action: SisuAction::FindUser,
        },
        (SisuState::FindingUser { title }, SisuEvent::UserFound(Ok(Token::Legacy(user)))) => {
            SisuStep {
                state: SisuState::FindingDevice { title, user },
                action: SisuAction::FindDevice,
            }
        },
        (
            SisuState::FindingDevice { title, user },
            SisuEvent::DeviceFound(Ok(Token::Legacy(device))),
        ) => {
            let sent = same_token(&device);
            SisuStep {
                state: SisuState::ExchangingDevice { title, user, device },
                action: SisuAction::ExchangeDevice {
                    device: sent,
                    app_id: DEVICE_APP_ID.to_owned(),
                    scope: DEVICE_SCOPE.to_owned(),
                    policy: Some(PolicyReference::TokenBroker),
                },
            }
        },
        (
            SisuState::ExchangingDevice { title, user, device },
            SisuEvent::DeviceExchanged(Ok(Token::Compact(device_ticket))),
        ) => {
            let client_id = title.client_id.clone();
            let scopes = user_scopes(title.client_id.as_str());
            SisuStep {
                state: SisuState::ExchangingUser { title, device_ticket },
                action: SisuAction::ExchangeUser {
                    user,
                    user_name: USER_NAME.to_owned(),
                    device,
                    extra: None,
                    prompt: Some(PROMPT_SILENT.to_owned()),
                    client_id,
                    scopes,
                },
            }
        },
        (
            SisuState::ExchangingUser { title, device_ticket },
            SisuEvent::UserExchanged(Ok(UserTokenOutcome::Issued(tokens))),
        ) => save_last(title, device_ticket, tokens),
        (SisuState::Saving { title, device_ticket, tokens }, _) => {
            take_first(title, device_ticket, tokens)
        },
        (SisuState::Building { device_ticket, user_ticket }, _) => SisuStep {
            state: SisuState::SettlingKey { device_ticket, user_ticket },
            action: SisuAction::SettleKey,
        },
        (
            SisuState::SettlingKey { device_ticket, user_ticket },
            SisuEvent::KeySettled(Some(key)),
        ) => SisuStep {
            state: SisuState::Signing { device_ticket, user_ticket },
            action: SisuAction::Sign(key),
        },
        (SisuState::SettlingKey { device_ticket, user_ticket }, _) => SisuStep {
            state: SisuState::RequestingDevice { user_ticket },
            action: SisuAction::RequestDevice { device_ticket },
        },
        (SisuState::Signing { device_ticket, user_ticket }, _) => SisuStep {
            state: SisuState::RequestingDevice { user_ticket },
            action: SisuAction::RequestDevice { device_ticket },
        },
        (SisuState::RequestingDevice { user_ticket }, SisuEvent::DeviceIssued(Ok(xbox_device))) => {
            let device_token = xbox_device.token.clone();
            SisuStep {
                state: SisuState::Authorizing { xbox_device },
                action: SisuAction::Authorize { user_ticket, device_token, session_id: None },
            }
        },
        (SisuState::Authorizing { xbox_device }, SisuEvent::Authorized(Ok(answer))) => SisuStep {
            state: SisuState::Finished,
            action: SisuAction::Finish { answer, xbox_device },
        },
        (_, SisuEvent::UserFound(Err(error))) => SisuStep::fail(SisuError::Call(error)),
        (_, SisuEvent::DeviceFound(Err(error))) => SisuStep::fail(SisuError::Call(error)),
        (_, SisuEvent::DeviceExchanged(Err(error))) => SisuStep::fail(SisuError::Call(error)),
        (_, SisuEvent::UserExchanged(Err(error))) => SisuStep::fail(SisuError::Call(error)),
        (_, SisuEvent::DeviceIssued(Err(error))) => SisuStep::fail(SisuError::Call(error)),
        (_, SisuEvent::Authorized(Err(error))) => SisuStep::fail(SisuError::Call(error)),
        _ => SisuStep::fail(SisuError::Unexpected),
    }
}

/// Whether these are the states, events and actions of one authorization, from
/// its start on: every event, where it is answered, moves it to the next state.
pub open spec fn is_run<D, R, E>(
    states: Seq<SisuState<D>>,
    events: Seq<SisuEvent<D, R, E>>,
    actions: Seq<SisuAction<D, R, E>>,
) -> bool {
    &&& states.len() == events.len() + 1
    &&& actions.len() == events.len()
    &&& states[0] is Start
    &&& forall|i: int| 0 <= i < events.len() ==> #[trigger] run_steps(states, events, actions, i)
}

/// Whether the event at `i` is answered by the next state and the action at `i`.
pub open spec fn run_steps<D, R, E>(
    states: Seq<SisuState<D>>,
    events: Seq<SisuEvent<D, R, E>>,
    actions: Seq<SisuAction<D, R, E>>,
    i: int,
) -> bool {
    sisu_step(states[i], events[i], states[i + 1], actions[i])
}

/// How many steps lie behind `state` at least.
pub open spec fn depth<D>(state: SisuState<D>) -> int {
    match state {
        SisuState::Start { .. } => 0,
        SisuState::FindingUser { .. } => 1,
        SisuState::FindingDevice { .. } => 2,
        SisuState::ExchangingDevice { .. } => 3,
        SisuState::ExchangingUser { .. } => 4,
        SisuState::Saving { .. } => 5,
        SisuState::Building { .. } => 6,
        SisuState::SettlingKey { .. } => 7,
        SisuState::Signing { .. } => 8,
        SisuState::RequestingDevice { .. } => 9,
        SisuState::Authorizing { .. } => 10,
        SisuState::Finished => 11,
    }
}

/// Whether the event `e` is one that an authorization cannot go on from in the
/// state `s`: a call failed, or a token came in a form that does not serve. A
/// token that could not be saved is none.
pub open spec fn is_refusal<D, R, E>(s: SisuState<D>, e: SisuEvent<D, R, E>) -> bool {
    match e {
        SisuEvent::UserFound(found) => !(found matches Ok(Token::Legacy(_))),
        SisuEvent::DeviceFound(found) => !(found matches Ok(Token::Legacy(_))),
        SisuEvent::DeviceExchanged(exchanged) => !(exchanged matches Ok(Token::Compact(_))),
        SisuEvent::UserExchanged(exchanged) => !(exchanged matches Ok(
            UserTokenOutcome::Issued(_),
        )),
        SisuEvent::Saved(_) => s matches SisuState::Saving { tokens, .. }
            && tokens@[0].token is Legacy,
        SisuEvent::DeviceIssued(issued) => issued is Err,
        SisuEvent::Authorized(answer) => answer is Err,
        _ => false,
    }
}

/// An authorization gives up on a refusal, and on nothing else. It passes on
/// the error of a call that failed.
pub proof fn law_fails_on_refusals<D, R, E>(
    s: SisuState<D>,
    e: SisuEvent<D, R, E>,
    t: SisuState<D>,
    a: SisuAction<D, R, E>,
)
    requires
        sisu_step(s, e, t, a),
    ensures
        a is Fail <==> is_refusal(s, e),
        e matches SisuEvent::UserFound(Err(error)) ==> a == SisuAction::<D, R, E>::Fail(
            SisuError::Call(error),
        ),
        e matches SisuEvent::DeviceFound(Err(error)) ==> a == SisuAction::<D, R, E>::Fail(
            SisuError::Call(error),
        ),
        e matches SisuEvent::DeviceExchanged(Err(error)) ==> a == SisuAction::<D, R, E>::Fail(
            SisuError::Call(error),
        ),
        e matches SisuEvent::UserExchanged(Err(error)) ==> a == SisuAction::<D, R, E>::Fail(
            SisuError::Call(error),
        ),
        e matches SisuEvent::DeviceIssued(Err(error)) ==> a == SisuAction::<D, R, E>::Fail(
            SisuError::Call(error),
        ),
        e matches SisuEvent::Authorized(Err(error)) ==> a == SisuAction::<D, R, E>::Fail(
            SisuError::Call(error),
        ),
{
}

/// Whether the user's own token could be saved makes no difference.
pub proof fn law_saving_decides_nothing<D, R, E>(
    s: SisuState<D>,
    one: Result<(), E>,
    other: Result<(), E>,
    t: SisuState<D>,
    a: SisuAction<D, R, E>,
)
    ensures
        sisu_step(s, SisuEvent::<D, R, E>::Saved(one), t, a) <==> sisu_step(
            s,
            SisuEvent::<D, R, E>::Saved(other),
            t,
            a,
        ),
{
}

/// At least as many steps lie behind a state as its depth says.
proof fn lemma_depth<D, R, E>(
    states: Seq<SisuState<D>>,
    events: Seq<SisuEvent<D, R, E>>,
    actions: Seq<SisuAction<D, R, E>>,
    i: int,
)
    requires
        is_run(states, events, actions),
        0 <= i < states.len(),
    ensures
        i <= depth(states[i]),
    decreases i,
{
    if i > 0 {
        lemma_depth(states, events, actions, i - 1);
        assert(run_steps(states, events, actions, i - 1));
    }
}

/// An authorization is over after eleven events at the latest.
pub proof fn law_run_ends<D, R, E>(
    states: Seq<SisuState<D>>,
    events: Seq<SisuEvent<D, R, E>>,
    actions: Seq<SisuAction<D, R, E>>,
)
    requires
        is_run(states, events, actions),
    ensures
        events.len() <= 11,
{
    if events.len() > 0 {
        let last = events.len() - 1;
        lemma_depth(states, events, actions, last);
        assert(run_steps(states, events, actions, last));
    }
}

/// The proof key is settled before a device token is requested: the request
/// comes right after the answer that there is no key, or after the
/// authenticator was given the key that was answered.
pub proof fn law_key_before_device_token<D, R, E>(
    states: Seq<SisuState<D>>,
    events: Seq<SisuEvent<D, R, E>>,
    actions: Seq<SisuAction<D, R, E>>,
    i: int,
)
    requires
        is_run(states, events, actions),
        0 <= i < actions.len(),
        actions[i] is RequestDevice,
    ensures
        ({
            ||| i >= 1 && actions[i - 1] is SettleKey && events[i] == SisuEvent::<
                D,
                R,
                E,
            >::KeySettled(None)
            ||| i >= 2 && actions[i - 2] is SettleKey && (events[i - 1] matches
                SisuEvent::KeySettled(Some(key)) && actions[i - 1] == SisuAction::<
                D,
                R,
                E,
            >::Sign(key))
        }),
{
    assert(run_steps(states, events, actions, i));
    if i >= 1 {
        assert(run_steps(states, events, actions, i - 1));
    }
    if i >= 2 {
        assert(run_steps(states, events, actions, i - 2));
    }
}

/// SISU is asked right after a device token was requested and issued, with that
/// token: so no token is requested before the proof key is settled.
pub proof fn law_device_token_before_sisu<D, R, E>(
    states: Seq<SisuState<D>>,
    events: Seq<SisuEvent<D, R, E>>,
    actions: Seq<SisuAction<D, R, E>>,
    i: int,
)
    requires
        is_run(states, events, actions),
        0 <= i < actions.len(),
        actions[i] is Authorize,
    ensures
        i >= 1,
        actions[i - 1] is RequestDevice,
        events[i] matches SisuEvent::DeviceIssued(Ok(issued)) && issued.token
            == actions[i]->Authorize_device_token,
{
    assert(run_steps(states, events, actions, i));
    if i >= 1 {
        assert(run_steps(states, events, actions, i - 1));
    }
}

/// One device from end to end: the device token that the caller gets is the one
/// that was issued, and the one that SISU was asked with.
pub proof fn law_one_device<D, R, E>(
    states: Seq<SisuState<D>>,
    events: Seq<SisuEvent<D, R, E>>,
    actions: Seq<SisuAction<D, R, E>>,
    i: int,
)
    requires
        is_run(states, events, actions),
        0 <= i < actions.len(),
        actions[i] is Finish,
    ensures
        i >= 1,
        events[i - 1] == SisuEvent::<D, R, E>::DeviceIssued(Ok(actions[i]->xbox_device)),
        actions[i - 1] matches SisuAction::Authorize { device_token, .. } && device_token
            == actions[i]->xbox_device.token,
        events[i] == SisuEvent::<D, R, E>::Authorized(Ok(actions[i]->answer)),
{
    assert(run_steps(states, events, actions, i));
    if i >= 1 {
        assert(run_steps(states, events, actions, i - 1));
    }
}

/// The device's token that is exchanged by itself is the one that the user's
/// token is exchanged with.
pub proof fn law_one_device_exchanged<D, R, E>(
    states: Seq<SisuState<D>>,
    events: Seq<SisuEvent<D, R, E>>,
    actions: Seq<SisuAction<D, R, E>>,
    i: int,
)
    requires
        is_run(states, events, actions),
        0 <= i < actions.len(),
        actions[i] is ExchangeUser,
    ensures
        i >= 1,
        actions[i - 1] matches SisuAction::ExchangeDevice { device, .. } && device
            == actions[i]->ExchangeUser_device,
{
    assert(run_steps(states, events, actions, i));
    if i >= 1 {
        assert(run_steps(states, events, actions, i - 1));
    }
}

/// The title that a state still knows, if it does.
pub open spec fn title_of<D>(state: SisuState<D>) -> Option<SisuTitle> {
    match state {
        SisuState::Start { title } => Some(title),
        SisuState::FindingUser { title } => Some(title),
        SisuState::FindingDevice { title, .. } => Some(title),
        SisuState::ExchangingDevice { title, .. } => Some(title),
        SisuState::ExchangingUser { title, .. } => Some(title),
        SisuState::Saving { title, .. } => Some(title),
        _ => None,
    }
}

/// No state knows another title than the first.
proof fn lemma_title<D, R, E>(
    states: Seq<SisuState<D>>,
    events: Seq<SisuEvent<D, R, E>>,
    actions: Seq<SisuAction<D, R, E>>,
    i: int,
)
    requires
        is_run(states, events, actions),
        0 <= i < states.len(),
    ensures
        title_of(states[i]) is Some ==> title_of(states[i]) == title_of(states[0]),
    decreases i,
{
    if i > 0 {
        lemma_title(states, events, actions, i - 1);
        assert(run_steps(states, events, actions, i - 1));
    }
}

/// The user's token is exchanged for, and the authenticator built for, the
/// title that the authorization began with.
pub proof fn law_title_is_kept<D, R, E>(
    states: Seq<SisuState<D>>,
    events: Seq<SisuEvent<D, R, E>>,
    actions: Seq<SisuAction<D, R, E>>,
    i: int,
)
    requires
        is_run(states, events, actions),
        0 <= i < actions.len(),
    ensures
        actions[i] matches SisuAction::Build(setup) ==> is_sisu_setup(
            setup,
            title_of(states[0])->0,
        ),
        actions[i] matches SisuAction::ExchangeUser { client_id, scopes, .. } ==> client_id@
            == title_of(states[0])->0.client_id@ && is_user_scopes(
            scopes@,
            title_of(states[0])->0.client_id@,
        ),
{
    lemma_title(states, events, actions, i);
    assert(run_steps(states, events, actions, i));
}

/// Whether the event at `i` issued tokens of which the first is the user's
/// ticket, with another behind it.
pub open spec fn issues_ticket<D, R, E>(
    events: Seq<SisuEvent<D, R, E>>,
    i: int,
    ticket: String,
) -> bool {
    &&& 0 <= i < events.len()
    &&& events[i] matches SisuEvent::UserExchanged(Ok(UserTokenOutcome::Issued(tokens)))
    &&& tokens@.len() >= 2
    &&& tokens@[0].token == Token::Compact(ticket)
}

/// SISU is asked with the first of the tokens that the user's token was
/// exchanged for.
pub proof fn law_user_ticket_is_the_first_issued<D, R, E>(
    states: Seq<SisuState<D>>,
    events: Seq<SisuEvent<D, R, E>>,
    actions: Seq<SisuAction<D, R, E>>,
    i: int,
)
    requires
        is_run(states, events, actions),
        0 <= i < actions.len(),
        actions[i] is Authorize,
    ensures
        exists|j: int|
            0 <= j < i && #[trigger] issues_ticket(events, j, actions[i]->user_ticket),
{
    assert(run_steps(states, events, actions, i));
    assert(run_steps(states, events, actions, i - 1));
    let settled = if events[i - 1] is Signed {
        assert(run_steps(states, events, actions, i - 2));
        i - 2
    } else {
        i - 1
    };
    assert(run_steps(states, events, actions, settled - 1));
    assert(run_steps(states, events, actions, settled - 2));
    assert(run_steps(states, events, actions, settled - 3));
    assert(issues_ticket(events, settled - 3, actions[i]->user_ticket));
}

/// A device token is requested for the ticket that the device's token was
/// exchanged for.
pub proof fn law_device_ticket_is_the_exchanged_one<D, R, E>(
    states: Seq<SisuState<D>>,
    events: Seq<SisuEvent<D, R, E>>,
    actions: Seq<SisuAction<D, R, E>>,
    i: int,
)
    requires
        is_run(states, events, actions),
        0 <= i < actions.len(),
        actions[i] is RequestDevice,
    ensures
        exists|j: int|
            0 <= j < i && #[trigger] events[j] == SisuEvent::<D, R, E>::DeviceExchanged(
                Ok(Token::Compact(actions[i]->RequestDevice_device_ticket)),
            ),
{
    assert(run_steps(states, events, actions, i));
    let settled = if events[i] is Signed {
        assert(run_steps(states, events, actions, i - 1));
        i - 1
    } else {
        i
    };
    assert(run_steps(states, events, actions, settled - 1));
    assert(run_steps(states, events, actions, settled - 2));
    assert(run_steps(states, events, actions, settled - 3));
    assert(run_steps(states, events, actions, settled - 4));
    assert(events[settled - 4] is DeviceExchanged);
}

/// The service and a caller cannot disagree on the proof key: the key that the
/// authenticator is made to sign with is the one that x, y and d describe to a
/// caller, whichever of the two was searched for first, where nothing but the
/// first search has changed the surroundings in between. It makes no difference
/// whether the key is from the file, found in the keychain or generated.
pub proof fn law_signer_and_caller_agree<D, R, E>(
    states: Seq<SisuState<D>>,
    events: Seq<SisuEvent<D, R, E>>,
    actions: Seq<SisuAction<D, R, E>>,
    i: int,
    settled: ProofKey,
    told: ProofKey,
    x: Seq<char>,
    y: Seq<char>,
    d: Seq<char>,
    around: crate::proof_key::Surroundings,
    for_signer: crate::proof_key::Search,
    for_caller: crate::proof_key::Search,
)
    requires
        is_run(states, events, actions),
        0 <= i < actions.len(),
        events[i] == SisuEvent::<D, R, E>::KeySettled(Some(settled)),
        for_signer.ends_with(Some(settled)),
        for_caller.ends_with(Some(told)),
        crate::proof_key::describes(x, y, d, told@),
        ({
            ||| around.hold(for_signer) && around.after(for_signer).hold(for_caller)
            ||| around.hold(for_caller) && around.after(for_caller).hold(for_signer)
        }),
    ensures
        actions[i] matches SisuAction::Sign(key) && key@ == told@
            && crate::proof_key::describes(x, y, d, key@),
{
    assert(run_steps(states, events, actions, i));
    if around.hold(for_signer) && around.after(for_signer).hold(for_caller) {
        crate::proof_key::law_searches_agree(around, for_signer, settled, for_caller, Some(told));
    } else {
        crate::proof_key::law_searches_agree(around, for_caller, told, for_signer, Some(settled));
    }
}

/// The authenticator is built for the title that the authorization began with:
/// its client id is the title's, and its title id is a text that, read as a
/// number, is the title's.
pub proof fn law_build_names_the_title<D, R, E>(
    states: Seq<SisuState<D>>,
    events: Seq<SisuEvent<D, R, E>>,
    actions: Seq<SisuAction<D, R, E>>,
    i: int,
    title: SisuTitle,
    setup: AuthenticatorSetup,
)
    requires
        is_run(states, events, actions),
        0 <= i < actions.len(),
        states[0] == (SisuState::<D>::Start { title }),
        actions[i] == SisuAction::<D, R, E>::Build(setup),
    ensures
        setup.app.client_id@ == title.client_id@,
        setup.app.title_id matches Some(text) && crate::text::number_of(text@) == title.title_id
            && crate::text::is_plain_number(text@),
{
    lemma_title(states, events, actions, i);
    assert(run_steps(states, events, actions, i));
    crate::text::law_decimal_writes_the_number(title.title_id as int);
}

/// Two authorizations build authenticators with the same title id exactly where
/// they began with the same title id, and with the same client id exactly where
/// they began with the same client id.
pub proof fn law_setups_tell_titles_apart<D, R, E>(
    one_states: Seq<SisuState<D>>,
    one_events: Seq<SisuEvent<D, R, E>>,
    one_actions: Seq<SisuAction<D, R, E>>,
    i: int,
    one: SisuTitle,
    one_setup: AuthenticatorSetup,
    other_states: Seq<SisuState<D>>,
    other_events: Seq<SisuEvent<D, R, E>>,
    other_actions: Seq<SisuAction<D, R, E>>,
    j: int,
    other: SisuTitle,
    other_setup: AuthenticatorSetup,
)
    requires
        is_run(one_states, one_events, one_actions),
        0 <= i < one_actions.len(),
        one_states[0] == (SisuState::<D>::Start { title: one }),
        one_actions[i] == SisuAction::<D, R, E>::Build(one_setup),
        is_run(other_states, other_events, other_actions),
        0 <= j < other_actions.len(),
        other_states[0] == (SisuState::<D>::Start { title: other }),
        other_actions[j] == SisuAction::<D, R, E>::Build(other_setup),
    ensures
        one_setup.app.title_id is Some,
        other_setup.app.title_id is Some,
        one_setup.app.title_id->0@ == other_setup.app.title_id->0@ <==> one.title_id
            == other.title_id,
        one_setup.app.client_id@ == other_setup.app.client_id@ <==> one.client_id@
            == other.client_id@,
{
    law_build_names_the_title(one_states, one_events, one_actions, i, one, one_setup);
    law_build_names_the_title(other_states, other_events, other_actions, j, other, other_setup);
    lemma_title(one_states, one_events, one_actions, i);
    assert(run_steps(one_states, one_events, one_actions, i));
    lemma_title(other_states, other_events, other_actions, j);
    assert(run_steps(other_states, other_events, other_actions, j));
}

/// Whatever the title, the authenticator is built for a Windows client in the
/// retail sandbox, with no scope, no redirect and no secret.
pub proof fn law_build_is_for_sisu<D, R, E>(
    states: Seq<SisuState<D>>,
    events: Seq<SisuEvent<D, R, E>>,
    actions: Seq<SisuAction<D, R, E>>,
    i: int,
    setup: AuthenticatorSetup,
)
    requires
        is_run(states, events, actions),
        0 <= i < actions.len(),
        actions[i] == SisuAction::<D, R, E>::Build(setup),
    ensures
        setup.client.user_agent@ == "XAL GRTS 2025.11.20251105.000"@,
        setup.client.device_type is Win32,
        setup.client.client_version@ == "10.0.22621"@,
        setup.client.query_display@ == Seq::<char>::empty(),
        setup.sandbox_id@ == "RETAIL"@,
        setup.app.auth_scopes@.len() == 0,
        setup.app.redirect_uri is None,
        setup.app.client_secret is None,
{
    assert(run_steps(states, events, actions, i));
    assert(setup.client.query_display@ =~= Seq::<char>::empty());
}

/// The first address that a user's token is exchanged for ends with the client
/// id that the authorization began with, right behind a text that is always the
/// same. The exchange itself is on behalf of that client id.
pub proof fn law_user_address_ends_with_the_client_id<D, R, E>(
    states: Seq<SisuState<D>>,
    events: Seq<SisuEvent<D, R, E>>,
    actions: Seq<SisuAction<D, R, E>>,
    i: int,
    title: SisuTitle,
)
    requires
        is_run(states, events, actions),
        0 <= i < actions.len(),
        states[0] == (SisuState::<D>::Start { title }),
        actions[i] is ExchangeUser,
    ensures
        actions[i] matches SisuAction::ExchangeUser { client_id, scopes, .. } && {
            let address = scopes@[0].address@;
            let end = title.client_id@;
            &&& client_id@ == end
            &&& scopes@.len() == 2
            &&& address.len() >= end.len()
            &&& address.skip(address.len() - end.len()) == end
            &&& address.take(address.len() - end.len())
                == "scope=xboxlive.signin&api-version=2.0&clientid="@
        },
{
    lemma_title(states, events, actions, i);
    assert(run_steps(states, events, actions, i));
    reveal_strlit("scope=");
    reveal_strlit("xboxlive.signin");
    reveal_strlit("&api-version=2.0&clientid=");
    reveal_strlit("scope=xboxlive.signin&api-version=2.0&clientid=");
    let head = "scope=xboxlive.signin&api-version=2.0&clientid="@;
    let end = title.client_id@;
    assert("scope="@ + USER_SCOPE@ + "&api-version=2.0&clientid="@ =~= head);
    let address = user_scope_address(end);
    assert(address =~= head + end);
    assert(address.skip(address.len() - end.len()) =~= end);
    assert(address.take(address.len() - end.len()) =~= head);
}

/// Two authorizations exchange a user's token for the same first address
/// exactly where they began with the same client id.
pub proof fn law_addresses_tell_client_ids_apart<D, R, E>(
    one_states: Seq<SisuState<D>>,
    one_events: Seq<SisuEvent<D, R, E>>,
    one_actions: Seq<SisuAction<D, R, E>>,
    i: int,
    one: SisuTitle,
    other_states: Seq<SisuState<D>>,
    other_events: Seq<SisuEvent<D, R, E>>,
    other_actions: Seq<SisuAction<D, R, E>>,
    j: int,
    other: SisuTitle,
)
    requires
        is_run(one_states, one_events, one_actions),
        0 <= i < one_actions.len(),
        one_states[0] == (SisuState::<D>::Start { title: one }),
        one_actions[i] is ExchangeUser,
        is_run(other_states, other_events, other_actions),
        0 <= j < other_actions.len(),
        other_states[0] == (SisuState::<D>::Start { title: other }),
        other_actions[j] is ExchangeUser,
    ensures
        one_actions[i]->scopes@[0].address@ == other_actions[j]->scopes@[0].address@
            <==> one.client_id@ == other.client_id@,
{
    law_user_address_ends_with_the_client_id(one_states, one_events, one_actions, i, one);
    law_user_address_ends_with_the_client_id(other_states, other_events, other_actions, j, other);
    let a = one_actions[i]->scopes@[0].address@;
    let b = other_actions[j]->scopes@[0].address@;
    let n = a.len() - one.client_id@.len();
    let m = b.len() - other.client_id@.len();
    assert(n == a.take(n).len());
    assert(m == b.take(m).len());
    assert(a =~= a.take(n) + a.skip(n));
    assert(b =~= b.take(m) + b.skip(m));
}

/// Whatever the title, a user's token is exchanged silently and under the same
/// name, first through the token broker and then for the user's own token,
/// without a policy.
pub proof fn law_user_exchange_is_silent<D, R, E>(
    states: Seq<SisuState<D>>,
    events: Seq<SisuEvent<D, R, E>>,
    actions: Seq<SisuAction<D, R, E>>,
    i: int,
)
    requires
        is_run(states, events, actions),
        0 <= i < actions.len(),
        actions[i] is ExchangeUser,
    ensures
        actions[i] matches SisuAction::ExchangeUser { user_name, extra, prompt, scopes, .. } && {
            &&& user_name@ == "USERNAME"@
            &&& extra is None
            &&& prompt is Some
            &&& prompt->0@ == "Silent"@
            &&& scopes@.len() == 2
            &&& scopes@[0].policy == Some(PolicyReference::TokenBroker)
            &&& scopes@[1].address@ == "http://Passport.NET/tb"@
            &&& scopes@[1].policy is None
        },
{
    assert(run_steps(states, events, actions, i));
}

/// The tokens that are exchanged are those that were found: the device's by
/// itself, always for the same application and scope, and the user's together
/// with the device's.
pub proof fn law_found_tokens_are_exchanged<D, R, E>(
    states: Seq<SisuState<D>>,
    events: Seq<SisuEvent<D, R, E>>,
    actions: Seq<SisuAction<D, R, E>>,
    i: int,
)
    requires
        is_run(states, events, actions),
        0 <= i < actions.len(),
    ensures
        actions[i] matches SisuAction::ExchangeDevice { device, app_id, scope, policy } ==> {
            &&& events[i] == SisuEvent::<D, R, E>::DeviceFound(Ok(Token::Legacy(device)))
            &&& app_id@ == "{28C08266-F973-4AE6-FFE4-409B249F138F}"@
            &&& scope@ == "scope=service::user.auth.xboxlive.com::MBI_SSL&api-version=2.0"@
            &&& policy == Some(PolicyReference::TokenBroker)
        },
        actions[i] matches SisuAction::ExchangeUser { user, device, .. } ==> {
            &&& i >= 2
            &&& events[i - 2] == SisuEvent::<D, R, E>::UserFound(Ok(Token::Legacy(user)))
            &&& events[i - 1] == SisuEvent::<D, R, E>::DeviceFound(Ok(Token::Legacy(device)))
        },
{
    assert(run_steps(states, events, actions, i));
    if i >= 1 {
        assert(run_steps(states, events, actions, i - 1));
    }
    if i >= 2 {
        assert(run_steps(states, events, actions, i - 2));
    }
}

/// The token that is saved is the last of those that were just issued, in the
/// form it was issued in, whether or not it names a key. It is saved under the
/// name of its key where it has one, and else under the address it was issued
/// for. Wherever tokens are issued, one is saved.
pub proof fn law_last_token_is_saved<D, R, E>(
    states: Seq<SisuState<D>>,
    events: Seq<SisuEvent<D, R, E>>,
    actions: Seq<SisuAction<D, R, E>>,
    i: int,
)
    requires
        is_run(states, events, actions),
        0 <= i < actions.len(),
    ensures
        actions[i] is Save <==> (events[i] matches SisuEvent::UserExchanged(
            Ok(UserTokenOutcome::Issued(_)),
        )),
        events[i] matches SisuEvent::UserExchanged(Ok(UserTokenOutcome::Issued(tokens))) ==> {
            let last = tokens@[tokens@.len() - 1];
            &&& tokens@.len() > 0
            &&& actions[i] matches SisuAction::Save { name, token }
            &&& token == last.token
            &&& last.token is Compact ==> name@ == last.address@
            &&& last.token matches Token::Legacy(body) ==> match body.key_name {
                Some(key_name) => name@ == key_name@,
                None => name@ == last.address@,
            }
        },
{
    assert(run_steps(states, events, actions, i));
}

/// What one authorization saved serves the next: where the last token that was
/// issued is in the older form, and a later authorization finds what was saved
/// as the user's, that one goes on, and exchanges the very token that was
/// issued.
pub proof fn law_saved_token_serves_again<D, R, E>(
    states: Seq<SisuState<D>>,
    events: Seq<SisuEvent<D, R, E>>,
    actions: Seq<SisuAction<D, R, E>>,
    i: int,
    tokens: Vec<IssuedToken>,
    issued: LegacyToken,
    saved: Token,
    name: String,
    later_states: Seq<SisuState<D>>,
    later_events: Seq<SisuEvent<D, R, E>>,
    later_actions: Seq<SisuAction<D, R, E>>,
    j: int,
    k: int,
)
    requires
        is_run(states, events, actions),
        0 <= i < actions.len(),
        events[i] == SisuEvent::<D, R, E>::UserExchanged(Ok(UserTokenOutcome::Issued(tokens))),
        tokens@.last().token == Token::Legacy(issued),
        actions[i] == (SisuAction::<D, R, E>::Save { name, token: saved }),
        is_run(later_states, later_events, later_actions),
        0 <= j < later_actions.len(),
        0 <= k < later_actions.len(),
        later_events[j] == SisuEvent::<D, R, E>::UserFound(Ok(saved)),
    ensures
        later_actions[j] is FindDevice,
        later_actions[k] matches SisuAction::ExchangeUser { user, .. } ==> user == issued,
{
    law_last_token_is_saved(states, events, actions, i);
    assert(run_steps(later_states, later_events, later_actions, j));
    law_found_tokens_are_exchanged(later_states, later_events, later_actions, k);
    if later_actions[k] is ExchangeUser {
        lemma_place(later_states, later_events, later_actions, j);
        lemma_place(later_states, later_events, later_actions, k - 2);
    }
}

/// The user's token is looked for as the second thing, once.
proof fn lemma_place<D, R, E>(
    states: Seq<SisuState<D>>,
    events: Seq<SisuEvent<D, R, E>>,
    actions: Seq<SisuAction<D, R, E>>,
    i: int,
)
    requires
        is_run(states, events, actions),
        0 <= i < actions.len(),
        events[i] is UserFound,
    ensures
        i == 1,
{
    assert(run_steps(states, events, actions, i));
    if i >= 1 {
        assert(run_steps(states, events, actions, i - 1));
    }
    if i >= 2 {
        assert(run_steps(states, events, actions, i - 2));
    }
}

/// The first of the tokens that were issued decides how the authorization goes
/// on once the last is saved, or could not be: one in the compact form has the
/// authenticator built, and one in the older form is given up on.
pub proof fn law_first_token_decides<D, R, E>(
    states: Seq<SisuState<D>>,
    events: Seq<SisuEvent<D, R, E>>,
    actions: Seq<SisuAction<D, R, E>>,
    i: int,
)
    requires
        is_run(states, events, actions),
        0 <= i < actions.len(),
        events[i] is Saved,
    ensures
        i >= 1,
        events[i - 1] matches SisuEvent::UserExchanged(Ok(UserTokenOutcome::Issued(tokens))) && {
            &&& tokens@.len() >= 2
            &&& tokens@[0].token is Compact ==> actions[i] is Build
            &&& tokens@[0].token is Legacy ==> actions[i] == SisuAction::<D, R, E>::Fail(
                SisuError::Unexpected,
            )
        },
{
    assert(run_steps(states, events, actions, i));
    if i >= 1 {
        assert(run_steps(states, events, actions, i - 1));
    }
}

/// Each call that is answered with what is wanted leads on to the next, in one
/// order: the user, the device, the exchange of the one and of the other, the
/// authenticator, its proof key, the device token, SISU.
pub proof fn law_wanted_answers_lead_on<D, R, E>(
    states: Seq<SisuState<D>>,
    events: Seq<SisuEvent<D, R, E>>,
    actions: Seq<SisuAction<D, R, E>>,
    i: int,
)
    requires
        is_run(states, events, actions),
        0 <= i < actions.len(),
    ensures
        match events[i] {
            SisuEvent::Begin => actions[i] is FindUser,
            SisuEvent::UserFound(Ok(Token::Legacy(_))) => actions[i] is FindDevice,
            SisuEvent::DeviceFound(Ok(Token::Legacy(_))) => actions[i] is ExchangeDevice,
            SisuEvent::DeviceExchanged(Ok(Token::Compact(_))) => actions[i] is ExchangeUser,
            SisuEvent::UserExchanged(Ok(UserTokenOutcome::Issued(_))) => actions[i] is Save,
            SisuEvent::Saved(_) => actions[i] is Build || actions[i] is Fail,
            SisuEvent::Built => actions[i] is SettleKey,
            SisuEvent::KeySettled(Some(key)) => actions[i] == SisuAction::<D, R, E>::Sign(key),
            SisuEvent::KeySettled(None) => actions[i] is RequestDevice,
            SisuEvent::Signed => actions[i] is RequestDevice,
            SisuEvent::DeviceIssued(Ok(_)) => actions[i] is Authorize,
            SisuEvent::Authorized(Ok(_)) => actions[i] is Finish,
            _ => actions[i] is Fail,
        },
        actions[i] matches SisuAction::Authorize { session_id, .. } ==> session_id is None,
{
    assert(run_steps(states, events, actions, i));
}

/// An answer in a form that does not serve is given up on as unexpected, and
/// never as the failure of a call. The failure of a call is passed on as it is.
pub proof fn law_failures_are_told_apart<D, R, E>(
    states: Seq<SisuState<D>>,
    events: Seq<SisuEvent<D, R, E>>,
    actions: Seq<SisuAction<D, R, E>>,
    i: int,
    error: SisuError<E>,
)
    requires
        is_run(states, events, actions),
        0 <= i < actions.len(),
        actions[i] == SisuAction::<D, R, E>::Fail(error),
    ensures
        error is Unexpected <==> match events[i] {
            SisuEvent::UserFound(found) => found matches Ok(Token::Compact(_)),
            SisuEvent::DeviceFound(found) => found matches Ok(Token::Compact(_)),
            SisuEvent::DeviceExchanged(exchanged) => exchanged matches Ok(Token::Legacy(_)),
            SisuEvent::UserExchanged(exchanged) => exchanged matches Ok(UserTokenOutcome::Other),
            SisuEvent::Saved(_) => true,
            _ => false,
        },
        error matches SisuError::Call(cause) ==> match events[i] {
            SisuEvent::UserFound(found) => found == Err::<Token, E>(cause),
            SisuEvent::DeviceFound(found) => found == Err::<Token, E>(cause),
            SisuEvent::DeviceExchanged(exchanged) => exchanged == Err::<Token, E>(cause),
            SisuEvent::UserExchanged(exchanged) => exchanged == Err::<UserTokenOutcome, E>(cause),
            SisuEvent::DeviceIssued(issued) => issued == Err::<DeviceToken<D>, E>(cause),
            SisuEvent::Authorized(answer) => answer == Err::<R, E>(cause),
            _ => false,
        },
{
    assert(run_steps(states, events, actions, i));
}

/// Whether `event` tells how the action `action` went.
pub open spec fn tells<D, R, E>(action: SisuAction<D, R, E>, event: SisuEvent<D, R, E>) -> bool {
    match action {
        SisuAction::FindUser => event is UserFound,
        SisuAction::FindDevice => event is DeviceFound,
        SisuAction::ExchangeDevice { .. } => event is DeviceExchanged,
        SisuAction::ExchangeUser { .. } => event is UserExchanged,
        SisuAction::Save { .. } => event is Saved,
        SisuAction::Build(_) => event is Built,
        SisuAction::SettleKey => event is KeySettled,
        SisuAction::Sign(_) => event is Signed,
        SisuAction::RequestDevice { .. } => event is DeviceIssued,
        SisuAction::Authorize { .. } => event is Authorized,
        SisuAction::Finish { .. } => false,
        SisuAction::Fail(_) => false,
    }
}

/// Whether `event` issued exactly `n` tokens.
pub open spec fn issues<D, R, E>(event: SisuEvent<D, R, E>, n: nat) -> bool {
    event matches SisuEvent::UserExchanged(Ok(UserTokenOutcome::Issued(tokens))) && tokens@.len()
        == n
}

/// An authorization waits for how its last action went, whatever that is, and
/// for nothing else. Only an exchange that issued no token is not let in, and
/// after one that issued a single token nothing is.
pub proof fn law_every_answer_is_taken<D, R, E>(
    states: Seq<SisuState<D>>,
    events: Seq<SisuEvent<D, R, E>>,
    actions: Seq<SisuAction<D, R, E>>,
    event: SisuEvent<D, R, E>,
)
    requires
        is_run(states, events, actions),
    ensures
        events.len() == 0 ==> (accepts(states.last(), event) <==> event is Begin),
        events.len() > 0 ==> (accepts(states.last(), event) <==> tells(actions.last(), event)
            && !issues(event, 0) && !issues(events.last(), 1)),
{
    if events.len() > 0 {
        assert(run_steps(states, events, actions, events.len() - 1));
    }
}

/// The events of an authorization come in the order of its actions: the first
/// is that it is wanted, and each of the others tells how the action before it
/// went.
pub proof fn law_events_follow_actions<D, R, E>(
    states: Seq<SisuState<D>>,
    events: Seq<SisuEvent<D, R, E>>,
    actions: Seq<SisuAction<D, R, E>>,
    i: int,
)
    requires
        is_run(states, events, actions),
        0 <= i < actions.len(),
    ensures
        i == 0 ==> events[0] is Begin,
        i > 0 ==> tells(actions[i - 1], events[i]),
{
    assert(run_steps(states, events, actions, i));
    if i > 0 {
        assert(run_steps(states, events, actions, i - 1));
    }
}

/// What `do_sisu` returns for the last state of an authorization, and an event
/// that it waits for, makes the authorization one event longer.
pub proof fn law_run_goes_on<D, R, E>(
    states: Seq<SisuState<D>>,
    events: Seq<SisuEvent<D, R, E>>,
    actions: Seq<SisuAction<D, R, E>>,
    event: SisuEvent<D, R, E>,
    r: SisuStep<D, R, E>,
)
    requires
        is_run(states, events, actions),
        accepts(states.last(), event),
        call_ensures(do_sisu::<D, R, E>, (states.last(), event), r),
    ensures
        is_run(states.push(r.state), events.push(event), actions.push(r.action)),
{
    let s = states.push(r.state);
    let e = events.push(event);
    let a = actions.push(r.action);
    assert forall|i: int| 0 <= i < e.len() implies #[trigger] run_steps(s, e, a, i) by {
        if i < events.len() {
            assert(run_steps(states, events, actions, i));
        }
    }
}

} // verus!
