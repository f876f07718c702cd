use vstd::prelude::*;

use crate::command::ServiceCommand;
use crate::controller::{
    default_prompt, start_spec, step_spec, Action, After, CommandError, Event, ServiceController, Stage,
    Timeout, MAX_MFA_ROUNDS,
};
use crate::model::{ConnectionStatus, MfaChallenge, MfaType, ServiceRequest, ServiceResponse};

verus! {

/// The events that a stage waits for.
pub open spec fn expects(s: Stage, e: Event) -> bool {
    match (s, e) {
        (Stage::AwaitStatus { .. }, Event::Response(_)) => true,
        (Stage::AwaitChallengeInput { .. }, Event::Input(_)) => true,
        (Stage::AwaitChallengeReply { .. }, Event::Response(_)) => true,
        (Stage::AwaitStore { .. }, Event::Stored) => true,
        (Stage::FetchingPrompts { .. }, Event::Prompts(_)) => true,
        (Stage::AwaitPassword, Event::Password(_)) => true,
        (Stage::AwaitPasswordInput, Event::Input(_)) => true,
        (Stage::AwaitConnectReply, Event::Response(_)) => true,
        (Stage::AwaitDisconnectReply { .. }, Event::Response(_)) => true,
        (Stage::AwaitInfo, Event::Info(_)) => true,
        _ => false,
    }
}

/// The stages of the disconnect half of a reconnect, whose failures are ignored.
pub open spec fn tolerates_failure(s: Stage) -> bool {
    match s {
        Stage::AwaitDisconnectReply { reconnect } => reconnect,
        Stage::AwaitStatus { after } => after == After::Reconnect,
        Stage::AwaitChallengeInput { after } => after == After::Reconnect,
        Stage::AwaitChallengeReply { after } => after == After::Reconnect,
        Stage::AwaitStore { after, .. } => after == After::Reconnect,
        _ => false,
    }
}

/// The prompts that a password prompt draws on: those just fetched, or those queued.
pub open spec fn queued(old: ServiceController, e: Event) -> Seq<String> {
    match e {
        Event::Prompts(v) => v@,
        _ => old.pwd_prompts@,
    }
}

/// While the controller waits for the service, a transport failure ends the
/// command with that very transport error, and nothing is asked of the user;
/// the disconnect half of a reconnect, which ignores its failures, is the exception.
pub proof fn lemma_transport_failure_ends_command(old: ServiceController, t: String, new: ServiceController, r: Action)
    requires
        expects(old.stage, Event::Response(Err(t))),
        !tolerates_failure(old.stage),
        step_spec(old, Event::Response(Err(t)), new, r),
    ensures
        r == Action::Finish(Err(CommandError::Transport(t))),
        new.stage == Stage::Done,
        new.mfa_rounds == old.mfa_rounds,
{
}

/// A status that carries a question challenge has the question put to the user
/// once; the answer goes back as the challenge code with the current options, and
/// once the service accepts it the status is polled exactly once more.
pub proof fn lemma_user_challenge_round(
    c0: ServiceController,
    after: After,
    s: ConnectionStatus,
    prompt: String,
    c1: ServiceController,
    r1: Action,
    code: String,
    c2: ServiceController,
    r2: Action,
    c3: ServiceController,
    r3: Action,
)
    requires
        c0.stage == (Stage::AwaitStatus { after }),
        c0.mfa_rounds < MAX_MFA_ROUNDS,
        s.connected_since.is_none(),
        s.mfa == Some(MfaChallenge { mfa_type: MfaType::UserInput, prompt }),
        step_spec(c0, Event::Response(Ok(ServiceResponse::ConnectionStatus(s))), c1, r1),
        step_spec(c1, Event::Input(Ok(code)), c2, r2),
        step_spec(c2, Event::Response(Ok(ServiceResponse::Success)), c3, r3),
    ensures
        r1 == Action::PromptChallenge(prompt),
        c1.mfa_rounds == c0.mfa_rounds + 1,
        r2 == Action::Send(ServiceRequest::ChallengeCode(code, c0.params), Timeout::Long),
        r3 == Action::Send(ServiceRequest::GetStatus, Timeout::Short),
        c3.stage == (Stage::AwaitStatus { after }),
        c3.mfa_rounds == c0.mfa_rounds + 1,
{
}

/// Each challenge put to the user counts one round, and no round is started past
/// the limit: one command answers at most `MAX_MFA_ROUNDS` challenges.
pub proof fn lemma_challenges_bounded(old: ServiceController, e: Event, new: ServiceController, r: Action)
    requires
        step_spec(old, e, new, r),
    ensures
        (r is PromptChallenge || r is OpenSso) ==> old.mfa_rounds < MAX_MFA_ROUNDS
            && new.mfa_rounds == old.mfa_rounds + 1,
        !(r is PromptChallenge || r is OpenSso) ==> new.mfa_rounds == old.mfa_rounds,
{
}

/// With the keychain in use the user is never prompted for a password, and the
/// option stays as it was.
pub proof fn lemma_keychain_never_prompts(old: ServiceController, e: Event, new: ServiceController, r: Action)
    requires
        !old.params.no_keychain,
        step_spec(old, e, new, r),
    ensures
        !(r is PromptPassword),
        !new.params.no_keychain,
{
}

/// The same of the first action of a command.
pub proof fn lemma_keychain_never_prompts_at_start(old: ServiceController, c: ServiceCommand, new: ServiceController, r: Action)
    requires
        start_spec(old, c, new, r),
    ensures
        !(r is PromptPassword),
        new.params == old.params,
{
}

/// A password prompt comes only without keychain, password and certificate, and
/// its text is the first prompt queued, or else the default one for the user.
pub proof fn lemma_password_prompt_text(old: ServiceController, e: Event, new: ServiceController, r: Action)
    requires
        step_spec(old, e, new, r),
        r is PromptPassword,
    ensures
        old.params.no_keychain,
        old.params.password@.len() == 0,
        old.params.client_cert.is_none(),
        queued(old, e).len() > 0 ==> r->PromptPassword_0 == queued(old, e)[0],
        queued(old, e).len() == 0 ==> r->PromptPassword_0@ == default_prompt(old.params.user_name@),
{
}

/// A reconnect starts by asking the service to disconnect.
pub proof fn lemma_reconnect_disconnects_first(old: ServiceController, new: ServiceController, r: Action)
    requires
        start_spec(old, ServiceCommand::Reconnect, new, r),
    ensures
        r == Action::Send(ServiceRequest::Disconnect, Timeout::Short),
        tolerates_failure(new.stage),
{
}

/// Nothing that happens in the disconnect half of a reconnect ends the command:
/// it either goes on within that half or turns to the connect half.
pub proof fn lemma_reconnect_ignores_disconnect_failure(old: ServiceController, e: Event, new: ServiceController, r: Action)
    requires
        tolerates_failure(old.stage),
        expects(old.stage, e),
        step_spec(old, e, new, r),
    ensures
        !(r is Finish),
        tolerates_failure(new.stage) || new.stage == (Stage::FetchingPrompts { reconnect: true }),
{
}

/// The password is stored only when the service reports the tunnel up, the
/// password is known and the keychain is in use, with the user name and password
/// as they stand; the next step goes on without storing again.
pub proof fn lemma_store_once(old: ServiceController, e: Event, new: ServiceController, r: Action)
    requires
        step_spec(old, e, new, r),
        r is StorePassword,
    ensures
        old.stage is AwaitStatus,
        e matches Event::Response(Ok(ServiceResponse::ConnectionStatus(s))) && s.connected_since.is_some(),
        old.params.password@.len() > 0,
        !old.params.no_keychain,
        r == Action::StorePassword(old.params.user_name, old.params.password),
        new.stage is AwaitStore,
{
}

/// After the store, a status check that closes a command reports the status.
pub proof fn lemma_store_then_report(old: ServiceController, s: ConnectionStatus, new: ServiceController, r: Action)
    requires
        old.stage == (Stage::AwaitStore { after: After::Finish, status: s }),
        step_spec(old, Event::Stored, new, r),
    ensures
        r == Action::Finish(Ok(s)),
        new.stage == Stage::Done,
{
}

/// How far the disconnect half of a reconnect is from its end: each challenge
/// round left counts four steps, and the stage counts the steps left in a round.
pub open spec fn reconnect_rank(c: ServiceController) -> nat {
    let left: nat = if c.mfa_rounds < MAX_MFA_ROUNDS { (MAX_MFA_ROUNDS - c.mfa_rounds) as nat } else { 0 };
    match c.stage {
        Stage::AwaitDisconnectReply { .. } => 4 * left + 4,
        Stage::AwaitChallengeInput { .. } => 4 * left + 3,
        Stage::AwaitChallengeReply { .. } => 4 * left + 2,
        Stage::AwaitStatus { .. } => 4 * left + 1,
        _ => 0,
    }
}

/// Each step of the disconnect half of a reconnect either turns to the connect
/// half or stays in the disconnect half with less left to do, so the connect
/// half is reached after finitely many steps, whatever the service answers.
pub proof fn lemma_reconnect_progress(old: ServiceController, e: Event, new: ServiceController, r: Action)
    requires
        tolerates_failure(old.stage),
        expects(old.stage, e),
        step_spec(old, e, new, r),
    ensures
        new.stage == (Stage::FetchingPrompts { reconnect: true })
            || (tolerates_failure(new.stage) && reconnect_rank(new) < reconnect_rank(old)),
{
}

/// Once the prompts are in, the connect half of a reconnect sends the connect
/// request, or first gets the password it needs; with server name and login type
/// set it never ends the command there.
pub proof fn lemma_reconnect_reaches_connect(old: ServiceController, v: Vec<String>, new: ServiceController, r: Action)
    requires
        old.stage == (Stage::FetchingPrompts { reconnect: true }),
        old.params.server_name@.len() > 0,
        old.params.login_type@.len() > 0,
        step_spec(old, Event::Prompts(v), new, r),
    ensures
        r == Action::Send(ServiceRequest::Connect(new.params), Timeout::Long)
            || r == Action::AcquirePassword(old.params.user_name)
            || r is PromptPassword,
        new.params == old.params,
{
}

/// A connect whose server name or login type is missing fails at once, before
/// anything is sent or fetched.
pub proof fn lemma_connect_checks_parameters_first(old: ServiceController, new: ServiceController, r: Action)
    requires
        old.params.server_name@.len() == 0 || old.params.login_type@.len() == 0,
        start_spec(old, ServiceCommand::Connect, new, r),
    ensures
        r == Action::Finish(Err(CommandError::MissingParameters)),
        new.stage == Stage::Done,
{
}

} // verus!
