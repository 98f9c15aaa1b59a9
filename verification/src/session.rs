//! A new session of the service, and the XSTS tokens it asks for.

use crate::params::{
    service_setup, xal_relying_party_xboxlive, AccessTokenPrefix, AuthenticatorSetup,
};
use vstd::prelude::*;

verus! {

/// How far a new session has come.
#[derive(Clone, Copy, Debug, PartialEq, Eq, Structural)]
pub enum SessionState {
    /// Nothing has been asked for yet.
    Start,
    /// The user is signing in to their Microsoft account.
    SigningIn,
    /// The signed in user is being authorized for Xbox Live.
    Authorizing,
    /// The session is there, or has failed.
    Finished,
}

/// What a session learns from outside. `L` are the tokens of a Microsoft
/// account, `T` those of a session, and `E` is what a call fails with.
pub enum SessionEvent<L, T, E> {
    /// The session is wanted.
    Begin,
    /// How signing in went.
    SignedIn(Result<L, E>),
    /// How authorizing went.
    Authorized(Result<T, E>),
}

/// What a session asks to be done next.
pub enum SessionAction<L, T, E> {
    /// Build an authenticator, and let the user sign in with it.
    SignIn {
        setup: AuthenticatorSetup,
        /// Whether the token comes with the redirect, without a code to exchange.
        implicit: bool,
    },
    /// Authorize for Xbox Live, with the same authenticator.
    Authorize {
        live_token: L,
        relying_party: String,
        prefix: AccessTokenPrefix,
        /// Whether a title token is asked for on the way.
        request_title_token: bool,
    },
    /// Hand these tokens to the caller, or this error.
    Finish(Result<T, E>),
}

/// Whether `event` is what a session waits for in `state`.
pub open spec fn accepts<L, T, E>(state: SessionState, event: SessionEvent<L, T, E>) -> bool {
    match event {
        SessionEvent::Begin => state is Start,
        SessionEvent::SignedIn(_) => state is SigningIn,
        SessionEvent::Authorized(_) => state is Authorizing,
    }
}

/// Whether a session, in state `s`, answers the event `e` by going to the state
/// `t` and asking for `a`.
pub open spec fn session_step<L, T, E>(
    s: SessionState,
    e: SessionEvent<L, T, E>,
    t: SessionState,
    a: SessionAction<L, T, E>,
) -> bool {
    match (s, e) {
        (SessionState::Start, SessionEvent::Begin) => {
            &&& t is SigningIn
            &&& a matches SessionAction::SignIn { setup, implicit }
            &&& crate::params::is_service_setup(setup)
            &&& implicit
        },
        (SessionState::SigningIn, SessionEvent::SignedIn(Ok(tokens))) => {
            &&& t is Authorizing
            &&& a matches SessionAction::Authorize {
                live_token,
                relying_party,
                prefix,
                request_title_token,
            }
            &&& live_token == tokens
            &&& relying_party@ == crate::params::relying_party_xboxlive()
            &&& prefix is Bare
            &&& !request_title_token
        },
        (SessionState::SigningIn, SessionEvent::SignedIn(Err(error))) => {
            &&& t is Finished
            &&& a == SessionAction::<L, T, E>::Finish(Err(error))
        },
        (SessionState::Authorizing, SessionEvent::Authorized(result)) => {
            &&& t is Finished
            &&& a == SessionAction::<L, T, E>::Finish(result)
        },
        _ => false,
    }
}

/// Where a session stands after an event, and what it asks for.
pub struct SessionStep<L, T, E> {
    pub state: SessionState,
    pub action: SessionAction<L, T, E>,
}

/// Signs a user in to the service, one step at a time: first to their
/// Microsoft account, then to Xbox Live.
pub fn start_new_session<L, T, E>(state: SessionState, event: SessionEvent<L, T, E>) -> (r:
    SessionStep<L, T, E>)
    requires
        accepts(state, event),
    ensures
        session_step(state, event, r.state, r.action),
{
    match event {
        SessionEvent::Begin => SessionStep {
            state: SessionState::SigningIn,
            action: SessionAction::SignIn { setup: service_setup(), implicit: true },
        },
        SessionEvent::SignedIn(Ok(live_token)) => SessionStep {
            state: SessionState::Authorizing,
            action: SessionAction::Authorize {
                live_token,
                relying_party: xal_relying_party_xboxlive(),
                prefix: AccessTokenPrefix::Bare,
                request_title_token: false,
            },
        },
        SessionEvent::SignedIn(Err(error)) => SessionStep {
            state: SessionState::Finished,
            action: SessionAction::Finish(Err(error)),
        },
        SessionEvent::Authorized(result) => SessionStep {
            state: SessionState::Finished,
            action: SessionAction::Finish(result),
        },
    }
}

/// A session is over after three events at the latest, and what the user
/// signed in with is what is authorized.
pub proof fn law_session_in_order<L, T, E>(
    states: Seq<SessionState>,
    events: Seq<SessionEvent<L, T, E>>,
    actions: Seq<SessionAction<L, T, E>>,
)
    requires
        states.len() == events.len() + 1,
        actions.len() == events.len(),
        states[0] is Start,
        forall|i: int|
            0 <= i < events.len() ==> #[trigger] session_steps(states, events, actions, i),
    ensures
        events.len() <= 3,
        events.len() == 3 ==> {
            &&& events[0] is Begin
            &&& events[1] matches SessionEvent::SignedIn(Ok(tokens))
            &&& actions[1] matches SessionAction::Authorize { live_token, .. }
            &&& live_token == tokens
            &&& events[2] matches SessionEvent::Authorized(result)
            &&& actions[2] == SessionAction::<L, T, E>::Finish(result)
        },
{
    if events.len() >= 3 {
        assert(session_steps(states, events, actions, 0));
        assert(session_steps(states, events, actions, 1));
        assert(session_steps(states, events, actions, 2));
        if events.len() > 3 {
            assert(session_steps(states, events, actions, 3));
        }
    }
}

/// Whether the event at `i` is answered by the next state and the action at `i`.
pub open spec fn session_steps<L, T, E>(
    states: Seq<SessionState>,
    events: Seq<SessionEvent<L, T, E>>,
    actions: Seq<SessionAction<L, T, E>>,
    i: int,
) -> bool {
    session_step(states[i], events[i], states[i + 1], actions[i])
}

/// What an XSTS token is asked for with. `D`, `T` and `U` are the tokens of a
/// device, a title and a user.
pub struct XstsRequest<'a, D, T, U> {
    pub setup: AuthenticatorSetup,
    pub device_token: Option<&'a D>,
    pub title_token: Option<&'a T>,
    pub user_token: Option<&'a U>,
    pub relying_party: &'a str,
}

/// The request for an XSTS token from these tokens, for a relying party: built
/// for an authenticator of the service's own, the tokens as they were given.
pub fn get_xsts_token<'a, D, T, U>(
    device_token: Option<&'a D>,
    title_token: Option<&'a T>,
    user_token: Option<&'a U>,
    relying_party: &'a str,
) -> (r: XstsRequest<'a, D, T, U>)
    ensures
        crate::params::is_service_setup(r.setup),
        r.device_token == device_token,
        r.title_token == title_token,
        r.user_token == user_token,
        r.relying_party == relying_party,
{
    XstsRequest { setup: service_setup(), device_token, title_token, user_token, relying_party }
}

/// Whether these are the states, events and actions of one session, from its
/// start on, every event answered.
pub open spec fn is_session<L, T, E>(
    states: Seq<SessionState>,
    events: Seq<SessionEvent<L, T, E>>,
    actions: Seq<SessionAction<L, T, E>>,
) -> bool {
    &&& states.len() == events.len() + 1
    &&& actions.len() == events.len()
    &&& states[0] is Start
    &&& forall|i: int| 0 <= i < events.len() ==> #[trigger] session_steps(states, events, actions, i)
}

/// Whatever a sign in or an authorization ends with is what the caller gets:
/// the error of a failed sign in, and the tokens or the error of an
/// authorization, unchanged. A caller gets nothing else.
pub proof fn law_results_are_passed_on<L, T, E>(
    states: Seq<SessionState>,
    events: Seq<SessionEvent<L, T, E>>,
    actions: Seq<SessionAction<L, T, E>>,
    i: int,
)
    requires
        is_session(states, events, actions),
        0 <= i < actions.len(),
    ensures
        events[i] matches SessionEvent::SignedIn(Err(error)) ==> actions[i] == SessionAction::<
            L,
            T,
            E,
        >::Finish(Err(error)),
        events[i] matches SessionEvent::Authorized(result) ==> actions[i] == SessionAction::<
            L,
            T,
            E,
        >::Finish(result),
        actions[i] matches SessionAction::Finish(result) ==> {
            ||| events[i] == SessionEvent::<L, T, E>::Authorized(result)
            ||| events[i] matches SessionEvent::SignedIn(Err(error)) && result == Err::<T, E>(error)
        },
{
    assert(session_steps(states, events, actions, i));
}

/// A user who signed in is authorized for Xbox Live with the tokens of that
/// sign in, put into the request bare and with no title token asked for.
pub proof fn law_signed_in_is_authorized<L, T, E>(
    states: Seq<SessionState>,
    events: Seq<SessionEvent<L, T, E>>,
    actions: Seq<SessionAction<L, T, E>>,
    i: int,
    tokens: L,
)
    requires
        is_session(states, events, actions),
        0 <= i < actions.len(),
        events[i] == SessionEvent::<L, T, E>::SignedIn(Ok(tokens)),
    ensures
        actions[i] matches SessionAction::Authorize {
            live_token,
            relying_party,
            prefix,
            request_title_token,
        } && live_token == tokens && relying_party@ == "http://xboxlive.com"@ && prefix is Bare
            && !request_title_token,
{
    assert(session_steps(states, events, actions, i));
}

/// A session begins with the user signing in, by the implicit flow, to the
/// service's own application on a Windows client in the retail sandbox.
pub proof fn law_session_begins_with_signing_in<L, T, E>(
    states: Seq<SessionState>,
    events: Seq<SessionEvent<L, T, E>>,
    actions: Seq<SessionAction<L, T, E>>,
    i: int,
)
    requires
        is_session(states, events, actions),
        0 <= i < actions.len(),
        events[i] is Begin,
    ensures
        actions[i] matches SessionAction::SignIn { setup, implicit } && {
            &&& implicit
            &&& setup.app.client_id@ == "000000004424da1f"@
            &&& setup.app.title_id is Some
            &&& setup.app.title_id->0@ == "704208617"@
            &&& setup.app.auth_scopes@.len() == 1
            &&& setup.app.auth_scopes@[0]@ == "service::user.auth.xboxlive.com::MBI_SSL"@
            &&& setup.app.redirect_uri is Some
            &&& setup.app.redirect_uri->0@ == "https://login.live.com/oauth20_desktop.srf"@
            &&& setup.app.client_secret is None
            &&& setup.client.device_type is Win32
            &&& setup.client.user_agent@ == "XAL GRTS 2024.02.20240220.000"@
            &&& setup.client.client_version@ == "10.0.22621.4196"@
            &&& setup.client.query_display@ == "none"@
            &&& setup.sandbox_id@ == "RETAIL"@
        },
{
    assert(session_steps(states, events, actions, i));
}

/// Whether `event` tells how the action `action` went.
pub open spec fn tells<L, T, E>(
    action: SessionAction<L, T, E>,
    event: SessionEvent<L, T, E>,
) -> bool {
    match action {
        SessionAction::SignIn { .. } => event is SignedIn,
        SessionAction::Authorize { .. } => event is Authorized,
        SessionAction::Finish(_) => false,
    }
}

/// A session waits for how its last action went, whatever that is, and for
/// nothing else. It begins where it is wanted, and is over where the caller has
/// its tokens or an error.
pub proof fn law_every_answer_is_taken<L, T, E>(
    states: Seq<SessionState>,
    events: Seq<SessionEvent<L, T, E>>,
    actions: Seq<SessionAction<L, T, E>>,
    event: SessionEvent<L, T, E>,
)
    requires
        is_session(states, events, actions),
    ensures
        events.len() == 0 ==> (accepts(states.last(), event) <==> event is Begin),
        events.len() > 0 ==> (accepts(states.last(), event) <==> tells(actions.last(), event)),
{
    if events.len() > 0 {
        assert(session_steps(states, events, actions, events.len() - 1));
    }
}

/// The events of a session come in the order of its actions: the first is that
/// it is wanted, and each of the others tells how the action before it went.
pub proof fn law_events_follow_actions<L, T, E>(
    states: Seq<SessionState>,
    events: Seq<SessionEvent<L, T, E>>,
    actions: Seq<SessionAction<L, T, E>>,
    i: int,
)
    requires
        is_session(states, events, actions),
        0 <= i < actions.len(),
    ensures
        i == 0 ==> events[0] is Begin,
        i > 0 ==> tells(actions[i - 1], events[i]),
{
    assert(session_steps(states, events, actions, i));
    if i > 0 {
        assert(session_steps(states, events, actions, i - 1));
    }
}

/// What `start_new_session` returns for the last state of a session, and an
/// event that it waits for, makes the session one event longer.
pub proof fn law_session_goes_on<L, T, E>(
    states: Seq<SessionState>,
    events: Seq<SessionEvent<L, T, E>>,
    actions: Seq<SessionAction<L, T, E>>,
    event: SessionEvent<L, T, E>,
    r: SessionStep<L, T, E>,
)
    requires
        is_session(states, events, actions),
        accepts(states.last(), event),
        call_ensures(start_new_session::<L, T, E>, (states.last(), event), r),
    ensures
        is_session(states.push(r.state), events.push(event), actions.push(r.action)),
{
    let s = states.push(r.state);
    let e = events.push(event);
    let a = actions.push(r.action);
    assert forall|i: int| 0 <= i < e.len() implies #[trigger] session_steps(s, e, a, i) by {
        if i < events.len() {
            assert(session_steps(states, events, actions, i));
        }
    }
}

/// Two requests for an XSTS token are alike in their tokens and their relying
/// party exactly where they were asked for with the same: none of these is
/// dropped, changed or mixed up with another.
pub proof fn law_xsts_requests_are_told_apart<'a, D, T, U>(
    device_token: Option<&'a D>,
    title_token: Option<&'a T>,
    user_token: Option<&'a U>,
    relying_party: &'a str,
    r: XstsRequest<'a, D, T, U>,
    other_device_token: Option<&'a D>,
    other_title_token: Option<&'a T>,
    other_user_token: Option<&'a U>,
    other_relying_party: &'a str,
    other: XstsRequest<'a, D, T, U>,
)
    requires
        call_ensures(
            get_xsts_token::<D, T, U>,
            (device_token, title_token, user_token, relying_party),
            r,
        ),
        call_ensures(
            get_xsts_token::<D, T, U>,
            (other_device_token, other_title_token, other_user_token, other_relying_party),
            other,
        ),
    ensures
        r.device_token == device_token,
        r.title_token == title_token,
        r.user_token == user_token,
        r.relying_party@ == relying_party@,
        r.device_token == other.device_token <==> device_token == other_device_token,
        r.title_token == other.title_token <==> title_token == other_title_token,
        r.user_token == other.user_token <==> user_token == other_user_token,
        r.relying_party@ == other.relying_party@ <==> relying_party@ == other_relying_party@,
{
}

/// A request for an XSTS token is for an authenticator like the one that a
/// session signs in with, whatever the tokens.
pub proof fn law_xsts_setup_is_that_of_a_session<'a, D, X, U, L, T, E>(
    device_token: Option<&'a D>,
    title_token: Option<&'a X>,
    user_token: Option<&'a U>,
    relying_party: &'a str,
    r: XstsRequest<'a, D, X, U>,
    states: Seq<SessionState>,
    events: Seq<SessionEvent<L, T, E>>,
    actions: Seq<SessionAction<L, T, E>>,
    i: int,
    setup: AuthenticatorSetup,
    implicit: bool,
)
    requires
        call_ensures(
            get_xsts_token::<D, X, U>,
            (device_token, title_token, user_token, relying_party),
            r,
        ),
        is_session(states, events, actions),
        0 <= i < actions.len(),
        actions[i] == (SessionAction::<L, T, E>::SignIn { setup, implicit }),
    ensures
        r.setup.app.client_id@ == setup.app.client_id@,
        r.setup.app.title_id is Some,
        setup.app.title_id is Some,
        r.setup.app.title_id->0@ == setup.app.title_id->0@,
        r.setup.app.auth_scopes@.len() == 1,
        setup.app.auth_scopes@.len() == 1,
        r.setup.app.auth_scopes@[0]@ == setup.app.auth_scopes@[0]@,
        r.setup.app.redirect_uri is Some,
        setup.app.redirect_uri is Some,
        r.setup.app.redirect_uri->0@ == setup.app.redirect_uri->0@,
        r.setup.app.client_secret is None,
        setup.app.client_secret is None,
        r.setup.client.device_type is Win32,
        setup.client.device_type is Win32,
        r.setup.client.user_agent@ == setup.client.user_agent@,
        r.setup.client.client_version@ == setup.client.client_version@,
        r.setup.client.query_display@ == setup.client.query_display@,
        r.setup.sandbox_id@ == setup.sandbox_id@,
{
    assert(session_steps(states, events, actions, i));
}

} // verus!
