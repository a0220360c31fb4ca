use vstd::prelude::*;

verus! {

/// The lifecycle of the connection as the user sees it.
#[derive(Clone, Copy, Debug, PartialEq, Eq, Structural)]
pub enum AuthState {
    Disconnected,
    Connecting,
    AwaitingCode,
    AwaitingTwoFactor,
    Authenticated,
}

/// The reply the workflow is waiting for.
#[derive(Clone, Copy, Debug, PartialEq, Eq, Structural)]
pub enum Pending {
    Nothing,
    Connection,
    AuthorizationCheck,
    LoginCode,
    CodeInput,
    SignIn,
    PasswordInput,
    PasswordCheck,
}

/// The authentication workflow: a lifecycle state and the reply awaited.
#[derive(Clone, Copy, Debug, PartialEq, Eq, Structural)]
pub struct AuthMachine {
    pub state: AuthState,
    pub pending: Pending,
}

/// Why an authentication attempt ended without success.
#[derive(Clone, Copy, Debug, PartialEq, Eq, Structural)]
pub enum AuthError {
    /// The connection could not be established.
    Connect,
    /// The remote platform refused a step of the sign-in.
    Authorization,
    /// The code or password could not be read.
    Input,
}

/// What happened since the last action.
#[derive(Clone, Copy, Debug, PartialEq, Eq, Structural)]
pub enum AuthEvent {
    /// The user asked to authenticate.
    Start,
    Connected,
    ConnectFailed,
    /// The connection answered whether it is already authorized.
    Authorized { yes: bool },
    CheckFailed,
    CodeSent,
    CodeRequestFailed,
    CodeEntered,
    PasswordEntered,
    InputFailed,
    SignedIn,
    PasswordRequired,
    SignInFailed,
    PasswordAccepted,
    PasswordRejected,
}

/// What the driver is to do next.
#[derive(Clone, Copy, Debug, PartialEq, Eq, Structural)]
pub enum AuthAction {
    /// Open a connection, from the persisted session if there is one.
    Connect,
    /// Ask the connection whether it is already authorized.
    CheckAuthorized,
    /// Ask the remote platform to send a login code.
    RequestCode,
    /// Read the login code from the user.
    PromptCode,
    /// Submit the login code.
    SubmitCode,
    /// Read the second-factor password from the user.
    PromptPassword,
    /// Submit the second-factor password.
    SubmitPassword,
    /// Put the authenticated connection into the session.
    Install,
    /// Give up; the connection of this attempt is dropped.
    Fail { error: AuthError },
}

pub open spec fn idle() -> AuthMachine {
    AuthMachine { state: AuthState::Disconnected, pending: Pending::Nothing }
}

pub open spec fn go(state: AuthState, pending: Pending, a: AuthAction) -> (AuthMachine, Seq<AuthAction>) {
    (AuthMachine { state, pending }, seq![a])
}

pub open spec fn fail(error: AuthError) -> (AuthMachine, Seq<AuthAction>) {
    (idle(), seq![AuthAction::Fail { error }])
}

/// One transition: an event answers the pending request, or, when none is
/// pending, `Start` begins a new attempt. Any other event changes nothing.
pub open spec fn step_spec(m: AuthMachine, e: AuthEvent) -> (AuthMachine, Seq<AuthAction>) {
    match (m.pending, e) {
        (Pending::Nothing, AuthEvent::Start) => go(AuthState::Connecting, Pending::Connection, AuthAction::Connect),
        (Pending::Connection, AuthEvent::Connected) => go(AuthState::Connecting, Pending::AuthorizationCheck, AuthAction::CheckAuthorized),
        (Pending::Connection, AuthEvent::ConnectFailed) => fail(AuthError::Connect),
        (Pending::AuthorizationCheck, AuthEvent::Authorized { yes }) => if yes {
            go(AuthState::Authenticated, Pending::Nothing, AuthAction::Install)
        } else {
            go(AuthState::Connecting, Pending::LoginCode, AuthAction::RequestCode)
        },
        (Pending::AuthorizationCheck, AuthEvent::CheckFailed) => fail(AuthError::Authorization),
        (Pending::LoginCode, AuthEvent::CodeSent) => go(AuthState::AwaitingCode, Pending::CodeInput, AuthAction::PromptCode),
        (Pending::LoginCode, AuthEvent::CodeRequestFailed) => fail(AuthError::Authorization),
        (Pending::CodeInput, AuthEvent::CodeEntered) => go(AuthState::AwaitingCode, Pending::SignIn, AuthAction::SubmitCode),
        (Pending::CodeInput, AuthEvent::InputFailed) => fail(AuthError::Input),
        (Pending::SignIn, AuthEvent::SignedIn) => go(AuthState::Authenticated, Pending::Nothing, AuthAction::Install),
        (Pending::SignIn, AuthEvent::PasswordRequired) => go(AuthState::AwaitingTwoFactor, Pending::PasswordInput, AuthAction::PromptPassword),
        (Pending::SignIn, AuthEvent::SignInFailed) => fail(AuthError::Authorization),
        (Pending::PasswordInput, AuthEvent::PasswordEntered) => go(AuthState::AwaitingTwoFactor, Pending::PasswordCheck, AuthAction::SubmitPassword),
        (Pending::PasswordInput, AuthEvent::InputFailed) => fail(AuthError::Input),
        (Pending::PasswordCheck, AuthEvent::PasswordAccepted) => go(AuthState::Authenticated, Pending::Nothing, AuthAction::Install),
        (Pending::PasswordCheck, AuthEvent::PasswordRejected) => fail(AuthError::Authorization),
        _ => (m, Seq::empty()),
    }
}

/// The machine reached and the actions issued when `events` arrive in order.
pub open spec fn run(m: AuthMachine, events: Seq<AuthEvent>) -> (AuthMachine, Seq<AuthAction>)
    decreases events.len(),
{
    if events.len() == 0 {
        (m, Seq::empty())
    } else {
        let (q, first) = step_spec(m, events[0]);
        let (r, rest) = run(q, events.drop_first());
        (r, first + rest)
    }
}

/// Whether `actions` put a connection into the session.
pub open spec fn installs(actions: Seq<AuthAction>) -> bool {
    exists|i: int| 0 <= i < actions.len() && actions[i] is Install
}

/// Whether `actions` end the attempt with an error.
pub open spec fn fails(actions: Seq<AuthAction>) -> bool {
    exists|i: int| 0 <= i < actions.len() && actions[i] is Fail
}

impl AuthMachine {
    /// Disconnected, with nothing pending.
    pub fn new() -> (m: AuthMachine)
        ensures
            m == idle(),
    {
        AuthMachine { state: AuthState::Disconnected, pending: Pending::Nothing }
    }

    /// Advances the workflow by `event`; returns the actions to perform.
    pub fn step(&mut self, event: AuthEvent) -> (actions: Vec<AuthAction>)
        ensures
            (*final(self), actions@) == step_spec(*old(self), event),
    {
        let (next, action): (AuthMachine, Option<AuthAction>) = match (self.pending, event) {
            (Pending::Nothing, AuthEvent::Start) => (
                AuthMachine { state: AuthState::Connecting, pending: Pending::Connection },
                Some(AuthAction::Connect),
            ),
            (Pending::Connection, AuthEvent::Connected) => (
                AuthMachine { state: AuthState::Connecting, pending: Pending::AuthorizationCheck },
                Some(AuthAction::CheckAuthorized),
            ),
            (Pending::Connection, AuthEvent::ConnectFailed) => (
                AuthMachine::new(),
                Some(AuthAction::Fail { error: AuthError::Connect }),
            ),
            (Pending::AuthorizationCheck, AuthEvent::Authorized { yes }) => if yes {
                (
                    AuthMachine { state: AuthState::Authenticated, pending: Pending::Nothing },
                    Some(AuthAction::Install),
                )
            } else {
                (
                    AuthMachine { state: AuthState::Connecting, pending: Pending::LoginCode },
                    Some(AuthAction::RequestCode),
                )
            },
            (Pending::AuthorizationCheck, AuthEvent::CheckFailed) => (
                AuthMachine::new(),
                Some(AuthAction::Fail { error: AuthError::Authorization }),
            ),
            (Pending::LoginCode, AuthEvent::CodeSent) => (
                AuthMachine { state: AuthState::AwaitingCode, pending: Pending::CodeInput },
                Some(AuthAction::PromptCode),
            ),
            (Pending::LoginCode, AuthEvent::CodeRequestFailed) => (
                AuthMachine::new(),
                Some(AuthAction::Fail { error: AuthError::Authorization }),
            ),
            (Pending::CodeInput, AuthEvent::CodeEntered) => (
                AuthMachine { state: AuthState::AwaitingCode, pending: Pending::SignIn },
                Some(AuthAction::SubmitCode),
            ),
            (Pending::CodeInput, AuthEvent::InputFailed) => (
                AuthMachine::new(),
                Some(AuthAction::Fail { error: AuthError::Input }),
            ),
            (Pending::SignIn, AuthEvent::SignedIn) => (
                AuthMachine { state: AuthState::Authenticated, pending: Pending::Nothing },
                Some(AuthAction::Install),
            ),
            (Pending::SignIn, AuthEvent::PasswordRequired) => (
                AuthMachine { state: AuthState::AwaitingTwoFactor, pending: Pending::PasswordInput },
                Some(AuthAction::PromptPassword),
            ),
            (Pending::SignIn, AuthEvent::SignInFailed) => (
                AuthMachine::new(),
                Some(AuthAction::Fail { error: AuthError::Authorization }),
            ),
            (Pending::PasswordInput, AuthEvent::PasswordEntered) => (
                AuthMachine { state: AuthState::AwaitingTwoFactor, pending: Pending::PasswordCheck },
                Some(AuthAction::SubmitPassword),
            ),
            (Pending::PasswordInput, AuthEvent::InputFailed) => (
                AuthMachine::new(),
                Some(AuthAction::Fail { error: AuthError::Input }),
            ),
            (Pending::PasswordCheck, AuthEvent::PasswordAccepted) => (
                AuthMachine { state: AuthState::Authenticated, pending: Pending::Nothing },
                Some(AuthAction::Install),
            ),
            (Pending::PasswordCheck, AuthEvent::PasswordRejected) => (
                AuthMachine::new(),
                Some(AuthAction::Fail { error: AuthError::Authorization }),
            ),
            _ => (*self, None),
        };
        *self = next;
        match action {
            Some(a) => vec![a],
            None => Vec::new(),
        }
    }
}

proof fn lemma_run_unfold(m: AuthMachine, e: AuthEvent, rest: Seq<AuthEvent>)
    ensures
        run(m, seq![e] + rest) == ({
            let (q, first) = step_spec(m, e);
            let (r, tail) = run(q, rest);
            (r, first + tail)
        }),
{
    assert((seq![e] + rest)[0] == e);
    assert((seq![e] + rest).drop_first() =~= rest);
}

/// With no attempt in flight, an attempt on a connection that is already
/// authorized connects, asks only whether it is authorized, and installs
/// the connection: no code is requested or submitted.
pub proof fn lemma_already_authorized(m: AuthMachine)
    requires
        m.pending == Pending::Nothing,
    ensures
        run(m, seq![AuthEvent::Start, AuthEvent::Connected, AuthEvent::Authorized { yes: true }]) == (
            AuthMachine { state: AuthState::Authenticated, pending: Pending::Nothing },
            seq![AuthAction::Connect, AuthAction::CheckAuthorized, AuthAction::Install],
        ),
{
    let e1 = AuthEvent::Start;
    let e2 = AuthEvent::Connected;
    let e3 = AuthEvent::Authorized { yes: true };
    let empty = Seq::<AuthEvent>::empty();
    assert(seq![e1, e2, e3] =~= seq![e1] + (seq![e2] + (seq![e3] + empty)));
    lemma_run_unfold(m, e1, seq![e2] + (seq![e3] + empty));
    lemma_run_unfold(
        AuthMachine { state: AuthState::Connecting, pending: Pending::Connection },
        e2,
        seq![e3] + empty,
    );
    lemma_run_unfold(
        AuthMachine { state: AuthState::Connecting, pending: Pending::AuthorizationCheck },
        e3,
        empty,
    );
    assert(seq![AuthAction::Connect] + (seq![AuthAction::CheckAuthorized] + (seq![AuthAction::Install] + Seq::<AuthAction>::empty()))
        =~= seq![AuthAction::Connect, AuthAction::CheckAuthorized, AuthAction::Install]);
}

/// A step that fails returns the workflow to disconnected with nothing
/// pending, whatever the state before, and installs no connection.
pub proof fn lemma_failure_resets(m: AuthMachine, e: AuthEvent)
    requires
        fails(step_spec(m, e).1),
    ensures
        step_spec(m, e).0 == idle(),
        !installs(step_spec(m, e).1),
{
}

proof fn lemma_silent_run_keeps_state(m: AuthMachine, events: Seq<AuthEvent>)
    requires
        run(m, events).1.len() == 0,
    ensures
        run(m, events).0 == m,
    decreases events.len(),
{
    if events.len() > 0 {
        let (q, first) = step_spec(m, events[0]);
        let (r, tail) = run(q, events.drop_first());
        assert((first + tail).len() == first.len() + tail.len());
        lemma_silent_run_keeps_state(q, events.drop_first());
    }
}

proof fn lemma_run_concat(m: AuthMachine, a: Seq<AuthEvent>, b: Seq<AuthEvent>)
    ensures
        run(m, a + b) == (run(run(m, a).0, b).0, run(m, a).1 + run(run(m, a).0, b).1),
    decreases a.len(),
{
    if a.len() == 0 {
        assert(a + b =~= b);
        assert(Seq::<AuthAction>::empty() + run(m, b).1 =~= run(m, b).1);
    } else {
        let (q, first) = step_spec(m, a[0]);
        assert((a + b)[0] == a[0]);
        assert((a + b).drop_first() =~= a.drop_first() + b);
        lemma_run_concat(q, a.drop_first(), b);
        let mid = run(q, a.drop_first());
        assert(first + (mid.1 + run(mid.0, b).1) =~= (first + mid.1) + run(mid.0, b).1);
    }
}

/// However an attempt unfolds, if the last thing it does is fail, the
/// workflow is left disconnected with nothing pending.
pub proof fn lemma_ends_disconnected_after_failure(m: AuthMachine, events: Seq<AuthEvent>)
    requires
        run(m, events).1.len() > 0,
        run(m, events).1.last() is Fail,
    ensures
        run(m, events).0 == idle(),
    decreases events.len(),
{
    let (q, first) = step_spec(m, events[0]);
    let (r, tail) = run(q, events.drop_first());
    if tail.len() > 0 {
        assert((first + tail).last() == tail.last());
        lemma_ends_disconnected_after_failure(q, events.drop_first());
    } else {
        assert(first + tail =~= first);
        assert(fails(first));
        lemma_failure_resets(m, events[0]);
        lemma_silent_run_keeps_state(q, events.drop_first());
    }
}

/// Two attempts in sequence that each end in failure: each leaves the
/// workflow disconnected with nothing pending, the first whatever came
/// before it and the second whatever the first did.
pub proof fn lemma_two_failed_attempts(m: AuthMachine, first: Seq<AuthEvent>, second: Seq<AuthEvent>)
    requires
        run(m, first).1.len() > 0,
        run(m, first).1.last() is Fail,
        run(idle(), second).1.len() > 0,
        run(idle(), second).1.last() is Fail,
    ensures
        run(m, first).0 == idle(),
        run(m, first + second).0 == idle(),
        run(m, first + second).1 == run(m, first).1 + run(idle(), second).1,
{
    lemma_ends_disconnected_after_failure(m, first);
    lemma_ends_disconnected_after_failure(idle(), second);
    lemma_run_concat(m, first, second);
}

} // verus!
