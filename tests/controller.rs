use snxctl::command::ServiceCommand;
use snxctl::controller::{
    Action, CommandError, Event, ServiceController, Stage, Timeout, CONNECT_TIMEOUT_SECS, MAX_MFA_ROUNDS,
    RECV_TIMEOUT_SECS,
};
use snxctl::model::{
    ConnectionStatus, MfaChallenge, MfaType, ServiceRequest, ServiceResponse, TunnelParams,
};

fn params(user: &str, password: &str, no_keychain: bool) -> TunnelParams {
    TunnelParams {
        server_name: "vpn.example.com".to_string(),
        login_type: "vpn_Username_Password".to_string(),
        user_name: user.to_string(),
        password: password.to_string(),
        client_cert: None,
        no_keychain,
    }
}

fn get_status() -> Action {
    Action::Send(ServiceRequest::GetStatus, Timeout::Short)
}

fn status(connected_since: Option<u64>, mfa: Option<MfaChallenge>) -> Event {
    Event::Response(Ok(ServiceResponse::ConnectionStatus(ConnectionStatus { connected_since, mfa })))
}

fn down() -> Event {
    status(None, None)
}

fn challenge(mfa_type: MfaType, prompt: &str) -> Event {
    status(None, Some(MfaChallenge { mfa_type, prompt: prompt.to_string() }))
}

#[test]
fn timeouts_have_two_classes() {
    assert_eq!(Timeout::Short.seconds(), RECV_TIMEOUT_SECS);
    assert_eq!(Timeout::Long.seconds(), CONNECT_TIMEOUT_SECS);
    assert_eq!(Timeout::Long.seconds(), 120);
}

#[test]
fn status_reports_what_the_service_says() {
    let mut c = ServiceController::with_params(params("alice", "", true));
    assert_eq!(c.start(ServiceCommand::Status), get_status());
    let a = c.step(status(Some(1700000000), None));
    assert_eq!(a, Action::Finish(Ok(ConnectionStatus { connected_since: Some(1700000000), mfa: None })));
    assert_eq!(c.stage, Stage::Done);
}

#[test]
fn transport_failure_is_distinct_from_protocol_error() {
    for cmd in [ServiceCommand::Status, ServiceCommand::Disconnect] {
        let mut c = ServiceController::with_params(params("alice", "pw", false));
        assert_eq!(c.start(cmd), get_status());
        let a = c.step(Event::Response(Err("timed out".to_string())));
        assert_eq!(a, Action::Finish(Err(CommandError::Transport("timed out".to_string()))));
    }
    let mut c = ServiceController::with_params(params("alice", "pw", false));
    c.start(ServiceCommand::Connect);
    c.step(Event::Prompts(vec![]));
    let a = c.step(down());
    assert_eq!(a, Action::Send(ServiceRequest::Connect(params("alice", "pw", false)), Timeout::Long));
    assert_eq!(
        c.step(Event::Response(Err("timed out".to_string()))),
        Action::Finish(Err(CommandError::Transport("timed out".to_string())))
    );
    let mut c = ServiceController::with_params(params("alice", "pw", false));
    c.start(ServiceCommand::Connect);
    c.step(Event::Prompts(vec![]));
    c.step(down());
    assert_eq!(
        c.step(Event::Response(Ok(ServiceResponse::Error("bad password".to_string())))),
        Action::Finish(Err(CommandError::Protocol("bad password".to_string())))
    );
}

#[test]
fn transport_failure_skips_challenge_handling() {
    let mut c = ServiceController::with_params(params("alice", "pw", false));
    c.start(ServiceCommand::Status);
    let a = c.step(Event::Response(Err("timed out".to_string())));
    assert!(matches!(a, Action::Finish(Err(CommandError::Transport(_)))));
    assert_eq!(c.mfa_rounds, 0);
}

#[test]
fn user_challenge_prompts_once_and_polls_again() {
    let p = params("alice", "pw", false);
    let mut c = ServiceController::with_params(p.clone());
    c.start(ServiceCommand::Status);
    assert_eq!(
        c.step(challenge(MfaType::UserInput, "Enter code:")),
        Action::PromptChallenge("Enter code:".to_string())
    );
    assert_eq!(
        c.step(Event::Input(Ok("42".to_string()))),
        Action::Send(ServiceRequest::ChallengeCode("42".to_string(), p), Timeout::Long)
    );
    assert_eq!(c.step(Event::Response(Ok(ServiceResponse::Success))), get_status());
    assert_eq!(c.step(down()), Action::Finish(Ok(ConnectionStatus { connected_since: None, mfa: None })));
    assert_eq!(c.mfa_rounds, 1);
}

#[test]
fn sso_challenge_sends_received_code() {
    let p = params("alice", "pw", false);
    let mut c = ServiceController::with_params(p.clone());
    c.start(ServiceCommand::Status);
    assert_eq!(
        c.step(challenge(MfaType::SamlSso, "https://example/sso")),
        Action::OpenSso("https://example/sso".to_string())
    );
    assert_eq!(
        c.step(Event::Input(Ok("123456".to_string()))),
        Action::Send(ServiceRequest::ChallengeCode("123456".to_string(), p), Timeout::Long)
    );
}

#[test]
fn sso_timeout_fails_the_attempt() {
    let mut c = ServiceController::with_params(params("alice", "pw", false));
    c.start(ServiceCommand::Status);
    c.step(challenge(MfaType::SamlSso, "https://example/sso"));
    assert_eq!(
        c.step(Event::Input(Err("deadline has elapsed".to_string()))),
        Action::Finish(Err(CommandError::Input("deadline has elapsed".to_string())))
    );
}

#[test]
fn repeated_challenges_are_bounded() {
    let mut c = ServiceController::with_params(params("alice", "pw", false));
    c.start(ServiceCommand::Status);
    for _ in 0..MAX_MFA_ROUNDS {
        assert_eq!(c.step(challenge(MfaType::UserInput, "code?")), Action::PromptChallenge("code?".to_string()));
        c.step(Event::Input(Ok("1".to_string())));
        assert_eq!(c.step(Event::Response(Ok(ServiceResponse::Success))), get_status());
    }
    assert_eq!(
        c.step(challenge(MfaType::UserInput, "code?")),
        Action::Finish(Err(CommandError::TooManyChallenges))
    );
}

#[test]
fn invalid_status_response() {
    let mut c = ServiceController::with_params(params("alice", "pw", false));
    c.start(ServiceCommand::Status);
    let a = c.step(Event::Response(Ok(ServiceResponse::Success)));
    assert_eq!(a, Action::Finish(Err(CommandError::InvalidResponse)));
    assert_eq!(CommandError::InvalidResponse.message(), "Invalid response!");
}

#[test]
fn connect_with_stored_password_never_prompts() {
    let p = params("alice", "secret", false);
    let mut c = ServiceController::with_params(p.clone());
    assert_eq!(c.start(ServiceCommand::Connect), Action::FetchPrompts);
    assert_eq!(c.step(Event::Prompts(vec!["Password:".to_string()])), get_status());
    assert_eq!(c.step(down()), Action::Send(ServiceRequest::Connect(p), Timeout::Long));
}

#[test]
fn connect_with_keychain_acquires_password() {
    let mut c = ServiceController::with_params(params("alice", "", false));
    c.start(ServiceCommand::Connect);
    c.step(Event::Prompts(vec![]));
    assert_eq!(c.step(down()), Action::AcquirePassword("alice".to_string()));
    assert_eq!(
        c.step(Event::Password(Some("fromkeychain".to_string()))),
        Action::Send(ServiceRequest::Connect(params("alice", "fromkeychain", false)), Timeout::Long)
    );
    assert_eq!(c.params.password, "fromkeychain");
}

#[test]
fn connect_without_keychain_password_uses_default_prompt() {
    let mut c = ServiceController::with_params(params("alice", "", true));
    assert_eq!(c.start(ServiceCommand::Connect), Action::FetchPrompts);
    assert_eq!(c.step(Event::Prompts(vec![])), get_status());
    assert_eq!(c.step(down()), Action::PromptPassword("Enter password for alice: ".to_string()));
    assert_eq!(
        c.step(Event::Input(Ok("  typed \n".to_string()))),
        Action::Send(ServiceRequest::Connect(params("alice", "typed", true)), Timeout::Long)
    );
}

#[test]
fn connect_uses_queued_prompt_first() {
    let mut c = ServiceController::with_params(params("bob", "", true));
    c.start(ServiceCommand::Connect);
    c.step(Event::Prompts(vec!["Token PIN:".to_string(), "Second:".to_string()]));
    assert_eq!(c.step(down()), Action::PromptPassword("Token PIN:".to_string()));
    assert_eq!(c.pwd_prompts.len(), 1);
}

#[test]
fn connect_prompt_failure_fails_command() {
    let mut c = ServiceController::with_params(params("alice", "", true));
    c.start(ServiceCommand::Connect);
    c.step(Event::Prompts(vec![]));
    c.step(down());
    assert_eq!(
        c.step(Event::Input(Err("no tty".to_string()))),
        Action::Finish(Err(CommandError::Input("no tty".to_string())))
    );
}

#[test]
fn connect_with_certificate_needs_no_password() {
    let mut p = params("alice", "", true);
    p.client_cert = Some("/etc/cert.p12".to_string());
    let mut c = ServiceController::with_params(p.clone());
    c.start(ServiceCommand::Connect);
    c.step(Event::Prompts(vec![]));
    assert_eq!(c.step(down()), Action::Send(ServiceRequest::Connect(p), Timeout::Long));
}

#[test]
fn connect_missing_parameters() {
    let mut p = params("alice", "pw", false);
    p.server_name = String::new();
    let mut c = ServiceController::with_params(p);
    assert_eq!(c.start(ServiceCommand::Connect), Action::Finish(Err(CommandError::MissingParameters)));
    assert_eq!(c.stage, Stage::Done);
    let mut p = params("alice", "pw", false);
    p.login_type = String::new();
    let mut c = ServiceController::with_params(p);
    assert_eq!(c.start(ServiceCommand::Connect), Action::Finish(Err(CommandError::MissingParameters)));
}

#[test]
fn disconnect_refused_by_service_is_reported() {
    let mut c = ServiceController::with_params(params("alice", "", true));
    c.start(ServiceCommand::Disconnect);
    c.step(down());
    assert_eq!(
        c.step(Event::Response(Ok(ServiceResponse::Error("not connected".to_string())))),
        Action::Finish(Err(CommandError::Protocol("not connected".to_string())))
    );
    let mut c = ServiceController::with_params(params("alice", "", true));
    c.start(ServiceCommand::Disconnect);
    c.step(down());
    assert_eq!(c.step(down()), Action::Finish(Err(CommandError::InvalidResponse)));
    let mut c = ServiceController::with_params(params("alice", "", true));
    c.start(ServiceCommand::Disconnect);
    c.step(down());
    assert_eq!(
        c.step(Event::Response(Err("timed out".to_string()))),
        Action::Finish(Err(CommandError::Transport("timed out".to_string())))
    );
}

#[test]
fn reconnect_reaches_connect_after_challenge_failure() {
    let p = params("alice", "pw", false);
    let mut c = ServiceController::with_params(p.clone());
    c.start(ServiceCommand::Reconnect);
    assert_eq!(c.step(Event::Response(Ok(ServiceResponse::Success))), get_status());
    assert_eq!(c.step(challenge(MfaType::UserInput, "code?")), Action::PromptChallenge("code?".to_string()));
    assert_eq!(c.step(Event::Input(Err("no tty".to_string()))), Action::FetchPrompts);
    assert_eq!(c.step(Event::Prompts(vec![])), Action::Send(ServiceRequest::Connect(p), Timeout::Long));
}

#[test]
fn successful_connect_stores_password_once() {
    let p = params("alice", "secret", false);
    let mut c = ServiceController::with_params(p.clone());
    c.start(ServiceCommand::Connect);
    c.step(Event::Prompts(vec![]));
    c.step(down());
    assert_eq!(c.step(Event::Response(Ok(ServiceResponse::Success))), get_status());
    assert_eq!(
        c.step(status(Some(5), None)),
        Action::StorePassword("alice".to_string(), "secret".to_string())
    );
    assert_eq!(
        c.step(Event::Stored),
        Action::Finish(Ok(ConnectionStatus { connected_since: Some(5), mfa: None }))
    );
}

#[test]
fn no_store_without_keychain() {
    let mut c = ServiceController::with_params(params("alice", "secret", true));
    c.start(ServiceCommand::Status);
    assert_eq!(
        c.step(status(Some(5), None)),
        Action::Finish(Ok(ConnectionStatus { connected_since: Some(5), mfa: None }))
    );
}

#[test]
fn disconnect_checks_status_first() {
    let mut c = ServiceController::with_params(params("alice", "", true));
    assert_eq!(c.start(ServiceCommand::Disconnect), get_status());
    assert_eq!(c.step(down()), Action::Send(ServiceRequest::Disconnect, Timeout::Short));
    assert_eq!(c.step(Event::Response(Ok(ServiceResponse::Success))), get_status());
    assert_eq!(c.step(down()), Action::Finish(Ok(ConnectionStatus { connected_since: None, mfa: None })));
}

#[test]
fn reconnect_ignores_disconnect_error() {
    let p = params("alice", "pw", false);
    let mut c = ServiceController::with_params(p.clone());
    assert_eq!(c.start(ServiceCommand::Reconnect), Action::Send(ServiceRequest::Disconnect, Timeout::Short));
    assert_eq!(c.step(Event::Response(Ok(ServiceResponse::Error("not connected".to_string())))), get_status());
    assert_eq!(c.step(Event::Response(Err("timed out".to_string()))), Action::FetchPrompts);
    assert_eq!(c.step(Event::Prompts(vec![])), Action::Send(ServiceRequest::Connect(p), Timeout::Long));
}

#[test]
fn reconnect_ignores_disconnect_transport_failure() {
    let p = params("alice", "pw", false);
    let mut c = ServiceController::with_params(p.clone());
    c.start(ServiceCommand::Reconnect);
    assert_eq!(c.step(Event::Response(Err("refused".to_string()))), Action::FetchPrompts);
    assert_eq!(c.step(Event::Prompts(vec![])), Action::Send(ServiceRequest::Connect(p), Timeout::Long));
}

#[test]
fn info_reports_disconnected_status() {
    let mut c = ServiceController::with_params(params("alice", "", true));
    assert_eq!(c.start(ServiceCommand::Info), Action::ShowInfo);
    assert_eq!(c.step(Event::Info(Ok(()))), Action::Finish(Ok(ConnectionStatus::default())));
    let mut c = ServiceController::with_params(params("alice", "", true));
    c.start(ServiceCommand::Info);
    assert_eq!(
        c.step(Event::Info(Err("unreachable".to_string()))),
        Action::Finish(Err(CommandError::Info("unreachable".to_string())))
    );
}

#[test]
fn unexpected_event_ends_command() {
    let mut c = ServiceController::with_params(params("alice", "", true));
    c.start(ServiceCommand::Status);
    assert_eq!(c.step(Event::Stored), Action::Finish(Err(CommandError::UnexpectedEvent)));
}
