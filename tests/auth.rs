use telegram_cloud::auth::{AuthAction, AuthError, AuthEvent, AuthMachine, AuthState, Pending};
use telegram_cloud::session::SessionState;

fn drive(m: &mut AuthMachine, events: &[AuthEvent]) -> Vec<AuthAction> {
    let mut all = Vec::new();
    for e in events {
        all.extend(m.step(*e));
    }
    all
}

#[test]
fn already_authorized_goes_straight_to_authenticated() {
    let mut m = AuthMachine::new();
    let actions = drive(
        &mut m,
        &[AuthEvent::Start, AuthEvent::Connected, AuthEvent::Authorized { yes: true }],
    );
    assert_eq!(actions, vec![AuthAction::Connect, AuthAction::CheckAuthorized, AuthAction::Install]);
    assert_eq!(m.state, AuthState::Authenticated);
    assert_eq!(m.pending, Pending::Nothing);
}

#[test]
fn code_sign_in_authenticates() {
    let mut m = AuthMachine::new();
    let actions = drive(
        &mut m,
        &[
            AuthEvent::Start,
            AuthEvent::Connected,
            AuthEvent::Authorized { yes: false },
            AuthEvent::CodeSent,
            AuthEvent::CodeEntered,
            AuthEvent::SignedIn,
        ],
    );
    assert_eq!(
        actions,
        vec![
            AuthAction::Connect,
            AuthAction::CheckAuthorized,
            AuthAction::RequestCode,
            AuthAction::PromptCode,
            AuthAction::SubmitCode,
            AuthAction::Install,
        ]
    );
    assert_eq!(m.state, AuthState::Authenticated);
}

#[test]
fn two_factor_path_authenticates() {
    let mut m = AuthMachine::new();
    drive(
        &mut m,
        &[
            AuthEvent::Start,
            AuthEvent::Connected,
            AuthEvent::Authorized { yes: false },
            AuthEvent::CodeSent,
            AuthEvent::CodeEntered,
        ],
    );
    assert_eq!(m.state, AuthState::AwaitingCode);
    assert_eq!(m.step(AuthEvent::PasswordRequired), vec![AuthAction::PromptPassword]);
    assert_eq!(m.state, AuthState::AwaitingTwoFactor);
    assert_eq!(m.step(AuthEvent::PasswordEntered), vec![AuthAction::SubmitPassword]);
    assert_eq!(m.step(AuthEvent::PasswordAccepted), vec![AuthAction::Install]);
    assert_eq!(m.state, AuthState::Authenticated);
}

#[test]
fn two_failed_attempts_each_reset() {
    let mut session: SessionState<u32> = SessionState::new();
    let mut m = AuthMachine::new();
    let first = drive(
        &mut m,
        &[
            AuthEvent::Start,
            AuthEvent::Connected,
            AuthEvent::Authorized { yes: false },
            AuthEvent::CodeSent,
            AuthEvent::CodeEntered,
            AuthEvent::SignInFailed,
        ],
    );
    assert_eq!(first.last(), Some(&AuthAction::Fail { error: AuthError::Authorization }));
    assert_eq!(m, AuthMachine::new());
    assert!(!session.settle_auth(&first, 1));
    assert!(!session.has_client());

    let second = drive(&mut m, &[AuthEvent::Start, AuthEvent::ConnectFailed]);
    assert_eq!(second, vec![AuthAction::Connect, AuthAction::Fail { error: AuthError::Connect }]);
    assert_eq!(m.state, AuthState::Disconnected);
    assert!(!session.settle_auth(&second, 2));
    assert!(session.client().is_none());
}

#[test]
fn input_and_password_failures_reset() {
    let mut m = AuthMachine::new();
    drive(
        &mut m,
        &[
            AuthEvent::Start,
            AuthEvent::Connected,
            AuthEvent::Authorized { yes: false },
            AuthEvent::CodeSent,
        ],
    );
    assert_eq!(m.step(AuthEvent::InputFailed), vec![AuthAction::Fail { error: AuthError::Input }]);
    assert_eq!(m, AuthMachine::new());
    drive(
        &mut m,
        &[
            AuthEvent::Start,
            AuthEvent::Connected,
            AuthEvent::Authorized { yes: false },
            AuthEvent::CodeSent,
            AuthEvent::CodeEntered,
            AuthEvent::PasswordRequired,
            AuthEvent::PasswordEntered,
        ],
    );
    assert_eq!(
        m.step(AuthEvent::PasswordRejected),
        vec![AuthAction::Fail { error: AuthError::Authorization }]
    );
    assert_eq!(m.state, AuthState::Disconnected);
}

#[test]
fn events_out_of_turn_are_ignored() {
    let mut m = AuthMachine::new();
    assert!(m.step(AuthEvent::SignedIn).is_empty());
    assert_eq!(m, AuthMachine::new());
    m.step(AuthEvent::Start);
    assert!(m.step(AuthEvent::Start).is_empty());
    assert_eq!(m.state, AuthState::Connecting);
}

#[test]
fn successful_attempt_installs_client() {
    let mut session: SessionState<u32> = SessionState::new();
    session.select_file("/tmp/a.txt".to_string());
    let mut m = AuthMachine::new();
    let actions = drive(
        &mut m,
        &[AuthEvent::Start, AuthEvent::Connected, AuthEvent::Authorized { yes: true }],
    );
    assert!(session.settle_auth(&actions, 7));
    assert_eq!(session.client(), Some(&7));
    assert_eq!(session.selected_file().as_deref(), Some("/tmp/a.txt"));
}

#[test]
fn selection_is_captured_by_copy() {
    let mut session: SessionState<u32> = SessionState::new();
    assert!(session.selected_file().is_none());
    session.select_file("first".to_string());
    let captured = session.selected_file();
    session.select_file("second".to_string());
    assert_eq!(captured.as_deref(), Some("first"));
    assert_eq!(session.selected_file().as_deref(), Some("second"));
    session.install_client(3);
    assert!(session.has_client());
}

#[test]
fn only_one_upload_in_flight() {
    let mut session: SessionState<u32> = SessionState::new();
    session.select_file("a.bin".to_string());
    assert!(session.begin_upload().is_none());
    session.install_client(1);
    assert_eq!(session.begin_upload().as_deref(), Some("a.bin"));
    session.select_file("b.bin".to_string());
    assert!(session.begin_upload().is_none());
    session.finish_upload();
    assert_eq!(session.begin_upload().as_deref(), Some("b.bin"));
}

#[test]
fn upload_needs_a_selected_file() {
    let mut session: SessionState<u32> = SessionState::new();
    session.install_client(1);
    assert!(session.begin_upload().is_none());
}
