use std::collections::VecDeque;

use vstd::prelude::*;

use crate::command::ServiceCommand;
use crate::model::{
    ConnectionStatus, MfaChallenge, MfaType, ServiceRequest, ServiceResponse, TunnelParams,
};

verus! {

/// Seconds to wait for the answer to a status poll or a disconnect.
pub const RECV_TIMEOUT_SECS: u64 = 2;

/// Seconds to wait for an answer that may need the gateway or the user.
pub const CONNECT_TIMEOUT_SECS: u64 = 120;

/// How many challenges one command answers before it gives up.
pub const MAX_MFA_ROUNDS: u8 = 4;

/// Which of the two deadlines an exchange with the service gets.
#[derive(Debug, Clone, Copy, PartialEq, Eq, Structural)]
pub enum Timeout {
    Short,
    Long,
}

impl Timeout {
    pub fn seconds(&self) -> (r: u64)
        ensures
            r == (match *self {
                Timeout::Short => RECV_TIMEOUT_SECS,
                Timeout::Long => CONNECT_TIMEOUT_SECS,
            }),
    {
        match self {
            Timeout::Short => RECV_TIMEOUT_SECS,
            Timeout::Long => CONNECT_TIMEOUT_SECS,
        }
    }
}

/// Why a command failed.
#[derive(Debug, Clone, PartialEq, Eq)]
pub enum CommandError {
    /// The exchange with the service failed or timed out.
    Transport(String),
    /// The service answered with an error.
    Protocol(String),
    /// The service answered with a message that does not fit the request.
    InvalidResponse,
    /// The server name or the login type is not configured.
    MissingParameters,
    /// The user's answer to a prompt or a challenge could not be had.
    Input(String),
    /// The server's login options could not be fetched.
    Info(String),
    /// The service kept asking for further factors.
    TooManyChallenges,
    /// An event arrived that the controller was not waiting for.
    UnexpectedEvent,
}

/// What the controller does once the status it asked for has settled.
#[derive(Debug, Clone, Copy, PartialEq, Eq, Structural)]
pub enum After {
    /// Report the status.
    Finish,
    /// Go on to ask the service to connect.
    Connect,
    /// Go on to ask the service to disconnect.
    Disconnect,
    /// The disconnect half of a reconnect: whatever happens, go on to connect.
    Reconnect,
}

/// Where the controller stands within a command.
#[derive(Debug, Clone, PartialEq, Eq)]
pub enum Stage {
    Idle,
    FetchingPrompts { reconnect: bool },
    AwaitStatus { after: After },
    AwaitChallengeInput { after: After },
    AwaitChallengeReply { after: After },
    AwaitStore { after: After, status: ConnectionStatus },
    AwaitPassword,
    AwaitPasswordInput,
    AwaitConnectReply,
    AwaitDisconnectReply { reconnect: bool },
    AwaitInfo,
    Done,
}

/// Work that the controller hands to its driver.
#[derive(Debug, PartialEq, Eq)]
pub enum Action {
    /// Send a request to the service and wait for its answer.
    Send(ServiceRequest, Timeout),
    /// Ask the user the challenge's question.
    PromptChallenge(String),
    /// Open the single sign-on URL and wait, within the one-time-code deadline, for the code.
    OpenSso(String),
    /// Fetch the password prompts that the server declares (empty on failure).
    FetchPrompts,
    /// Read the user's password from the keychain.
    AcquirePassword(String),
    /// Ask the user for a password with this text.
    PromptPassword(String),
    /// Store the user name and password in the keychain; the outcome does not matter.
    StorePassword(String, String),
    /// Fetch and show the server's login options.
    ShowInfo,
    /// The command is over.
    Finish(Result<ConnectionStatus, CommandError>),
}

/// What the driver reports back after performing an action.
#[derive(Debug, PartialEq, Eq)]
pub enum Event {
    /// The service's answer, or a transport failure.
    Response(Result<ServiceResponse, String>),
    /// The user's answer or the one-time code, or why none came.
    Input(Result<String, String>),
    /// The password prompts fetched from the server.
    Prompts(Vec<String>),
    /// The password from the keychain, if it had one.
    Password(Option<String>),
    /// The keychain store was attempted.
    Stored,
    /// The login options were shown, or why not.
    Info(Result<(), String>),
}

/// The front end's command logic, driven by events and answering with actions.
pub struct ServiceController {
    pub params: TunnelParams,
    pub pwd_prompts: VecDeque<String>,
    pub stage: Stage,
    pub mfa_rounds: u8,
}

/// The single line shown to the user for an error.
pub open spec fn error_text(e: CommandError) -> Seq<char> {
    match e {
        CommandError::Transport(t) => t@,
        CommandError::Protocol(m) => m@,
        CommandError::InvalidResponse => "Invalid response!"@,
        CommandError::MissingParameters => "Missing required parameters in the config file: server name and/or login type"@,
        CommandError::Input(x) => x@,
        CommandError::Info(x) => x@,
        CommandError::TooManyChallenges => "Too many authentication challenges"@,
        CommandError::UnexpectedEvent => "Unexpected event"@,
    }
}

impl CommandError {
    pub fn message(&self) -> (r: String)
        ensures
            r@ == error_text(*self),
    {
        match self {
            CommandError::Transport(t) => t.clone(),
            CommandError::Protocol(m) => m.clone(),
            CommandError::InvalidResponse => String::from_str("Invalid response!"),
            CommandError::MissingParameters => String::from_str(
                "Missing required parameters in the config file: server name and/or login type",
            ),
            CommandError::Input(x) => x.clone(),
            CommandError::Info(x) => x.clone(),
            CommandError::TooManyChallenges => String::from_str("Too many authentication challenges"),
            CommandError::UnexpectedEvent => String::from_str("Unexpected event"),
        }
    }
}

/// What `str::trim` returns for a string.
pub uninterp spec fn trimmed(s: Seq<char>) -> Seq<char>;

/// Relies on `str::trim`: the result depends on the characters alone.
#[verifier::external_body]
fn trim_text(s: &str) -> (r: String)
    ensures
        r@ == trimmed(s@),
{
    s.trim().to_owned()
}

/// The text of the password prompt when the server declares none.
pub open spec fn default_prompt(user: Seq<char>) -> Seq<char> {
    "Enter password for "@ + user + ": "@
}

pub open spec fn status_request() -> Action {
    Action::Send(ServiceRequest::GetStatus, Timeout::Short)
}

/// The action that answers a challenge.
pub open spec fn challenge_action(m: MfaChallenge) -> Action {
    match m.mfa_type {
        MfaType::UserInput => Action::PromptChallenge(m.prompt),
        MfaType::SamlSso => Action::OpenSso(m.prompt),
    }
}

/// `new` holds the given options, prompt queue and challenge count.
pub open spec fn holds(p: TunnelParams, q: Seq<String>, n: u8, new: ServiceController) -> bool {
    &&& new.params == p
    &&& new.pwd_prompts@ == q
    &&& new.mfa_rounds == n
}

/// `new` differs from `old` in its stage alone.
pub open spec fn keeps(old: ServiceController, new: ServiceController) -> bool {
    holds(old.params, old.pwd_prompts@, old.mfa_rounds, new)
}

/// The command ends with `r`.
pub open spec fn ends(old: ServiceController, new: ServiceController, r: Action, res: Result<ConnectionStatus, CommandError>) -> bool {
    &&& keeps(old, new)
    &&& new.stage == Stage::Done
    &&& r == Action::Finish(res)
}

/// A step within a status check failed with `err`: the command fails, unless the
/// check belongs to the disconnect half of a reconnect, which goes on to connect.
pub open spec fn failed(old: ServiceController, after: After, err: CommandError, new: ServiceController, r: Action) -> bool {
    if after == After::Reconnect {
        &&& keeps(old, new)
        &&& new.stage == (Stage::FetchingPrompts { reconnect: true })
        &&& r == Action::FetchPrompts
    } else {
        ends(old, new, r, Err(err))
    }
}

/// A status check asked for next.
pub open spec fn asks_status(old: ServiceController, after: After, new: ServiceController, r: Action) -> bool {
    &&& keeps(old, new)
    &&& new.stage == (Stage::AwaitStatus { after })
    &&& r == status_request()
}

/// The connect request sent with the options that `new` holds.
pub open spec fn connect_sent(q: Seq<String>, n: u8, new: ServiceController, r: Action) -> bool {
    &&& new.pwd_prompts@ == q
    &&& new.mfa_rounds == n
    &&& new.stage == Stage::AwaitConnectReply
    &&& r == Action::Send(ServiceRequest::Connect(new.params), Timeout::Long)
}

/// The connect half of a command begins, with options `p` and prompt queue `q`:
/// check the options, get a password where one is owed, or send the request.
pub open spec fn connect_begun(p: TunnelParams, q: Seq<String>, n: u8, new: ServiceController, r: Action) -> bool {
    if p.server_name@.len() == 0 || p.login_type@.len() == 0 {
        &&& holds(p, q, n, new)
        &&& new.stage == Stage::Done
        &&& r == Action::Finish(Err(CommandError::MissingParameters))
    } else if p.password@.len() == 0 && p.client_cert.is_none() {
        if !p.no_keychain {
            &&& holds(p, q, n, new)
            &&& new.stage == Stage::AwaitPassword
            &&& r == Action::AcquirePassword(p.user_name)
        } else {
            &&& new.params == p
            &&& new.mfa_rounds == n
            &&& new.stage == Stage::AwaitPasswordInput
            &&& r is PromptPassword
            &&& if q.len() > 0 {
                &&& r->PromptPassword_0 == q[0]
                &&& new.pwd_prompts@ == q.subrange(1, q.len() as int)
            } else {
                &&& r->PromptPassword_0@ == default_prompt(p.user_name@)
                &&& new.pwd_prompts@ == q
            }
        }
    } else {
        &&& new.params == p
        &&& connect_sent(q, n, new, r)
    }
}

/// The status `s` has settled; go on as `after` says.
pub open spec fn settled(old: ServiceController, after: After, s: ConnectionStatus, new: ServiceController, r: Action) -> bool {
    match after {
        After::Finish => ends(old, new, r, Ok(s)),
        After::Connect => connect_begun(old.params, old.pwd_prompts@, old.mfa_rounds, new, r),
        After::Disconnect => {
            &&& keeps(old, new)
            &&& new.stage == (Stage::AwaitDisconnectReply { reconnect: false })
            &&& r == Action::Send(ServiceRequest::Disconnect, Timeout::Short)
        },
        After::Reconnect => {
            &&& keeps(old, new)
            &&& new.stage == (Stage::FetchingPrompts { reconnect: true })
            &&& r == Action::FetchPrompts
        },
    }
}

/// The answer to a status poll: a challenge is answered, a fresh connection has
/// its password stored, any other status settles, anything else fails.
pub open spec fn status_answered(old: ServiceController, after: After, res: Result<ServiceResponse, String>, new: ServiceController, r: Action) -> bool {
    let p = old.params;
    match res {
        Err(t) => failed(old, after, CommandError::Transport(t), new, r),
        Ok(ServiceResponse::ConnectionStatus(s)) => {
            if s.connected_since.is_none() && s.mfa.is_some() {
                if old.mfa_rounds >= MAX_MFA_ROUNDS {
                    failed(old, after, CommandError::TooManyChallenges, new, r)
                } else {
                    &&& holds(p, old.pwd_prompts@, (old.mfa_rounds + 1) as u8, new)
                    &&& new.stage == (Stage::AwaitChallengeInput { after })
                    &&& r == challenge_action(s.mfa->Some_0)
                }
            } else if s.connected_since.is_some() && p.password@.len() > 0 && !p.no_keychain {
                &&& keeps(old, new)
                &&& new.stage == (Stage::AwaitStore { after, status: s })
                &&& r == Action::StorePassword(p.user_name, p.password)
            } else {
                settled(old, after, s, new, r)
            }
        },
        Ok(_) => failed(old, after, CommandError::InvalidResponse, new, r),
    }
}

/// What `start` does with a command.
pub open spec fn start_spec(old: ServiceController, c: ServiceCommand, new: ServiceController, r: Action) -> bool {
    &&& holds(old.params, old.pwd_prompts@, 0, new)
    &&& match c {
        ServiceCommand::Status => new.stage == (Stage::AwaitStatus { after: After::Finish }) && r == status_request(),
        ServiceCommand::Connect => if old.params.server_name@.len() == 0 || old.params.login_type@.len() == 0 {
            new.stage == Stage::Done && r == Action::Finish(Err(CommandError::MissingParameters))
        } else {
            new.stage == (Stage::FetchingPrompts { reconnect: false }) && r == Action::FetchPrompts
        },
        ServiceCommand::Disconnect => new.stage == (Stage::AwaitStatus { after: After::Disconnect }) && r == status_request(),
        ServiceCommand::Reconnect => new.stage == (Stage::AwaitDisconnectReply { reconnect: true })
            && r == Action::Send(ServiceRequest::Disconnect, Timeout::Short),
        ServiceCommand::Info => new.stage == Stage::AwaitInfo && r == Action::ShowInfo,
    }
}


/// The prompts, first to be used first.
fn queue_of(v: &Vec<String>) -> (q: VecDeque<String>)
    ensures
        q@ == v@,
{
    let mut q: VecDeque<String> = VecDeque::new();
    let mut i: usize = 0;
    while i < v.len()
        invariant
            i <= v@.len(),
            q@ == v@.subrange(0, i as int),
        decreases v@.len() - i,
    {
        q.push_back(v[i].clone());
        i = i + 1;
        proof {
            assert(v@.subrange(0, i as int) == v@.subrange(0, i - 1 as int).push(v@[i - 1]));
        }
    }
    proof {
        assert(v@.subrange(0, v@.len() as int) == v@);
    }
    q
}

/// What `step` does with an event, given the stage it arrives in. An event that
/// the stage does not wait for ends the command.
pub open spec fn step_spec(old: ServiceController, e: Event, new: ServiceController, r: Action) -> bool {
    let p = old.params;
    match (old.stage, e) {
        (Stage::AwaitStatus { after }, Event::Response(res)) => status_answered(old, after, res, new, r),
        (Stage::AwaitChallengeInput { after }, Event::Input(res)) => match res {
            Err(x) => failed(old, after, CommandError::Input(x), new, r),
            Ok(code) => {
                &&& keeps(old, new)
                &&& new.stage == (Stage::AwaitChallengeReply { after })
                &&& r == Action::Send(ServiceRequest::ChallengeCode(code, p), Timeout::Long)
            },
        },
        (Stage::AwaitChallengeReply { after }, Event::Response(res)) => match res {
            Ok(ServiceResponse::Success) => asks_status(old, after, new, r),
            Ok(ServiceResponse::Error(m)) => failed(old, after, CommandError::Protocol(m), new, r),
            Ok(_) => failed(old, after, CommandError::InvalidResponse, new, r),
            Err(t) => failed(old, after, CommandError::Transport(t), new, r),
        },
        (Stage::AwaitStore { after, status }, Event::Stored) => settled(old, after, status, new, r),
        (Stage::FetchingPrompts { reconnect }, Event::Prompts(v)) => if reconnect {
            connect_begun(p, v@, old.mfa_rounds, new, r)
        } else {
            &&& holds(p, v@, old.mfa_rounds, new)
            &&& new.stage == (Stage::AwaitStatus { after: After::Connect })
            &&& r == status_request()
        },
        (Stage::AwaitPassword, Event::Password(o)) => {
            &&& new.params == (match o {
                Some(pw) => TunnelParams { password: pw, ..p },
                None => p,
            })
            &&& connect_sent(old.pwd_prompts@, old.mfa_rounds, new, r)
        },
        (Stage::AwaitPasswordInput, Event::Input(res)) => match res {
            Err(x) => ends(old, new, r, Err(CommandError::Input(x))),
            Ok(text) => {
                &&& new.params == (TunnelParams { password: new.params.password, ..p })
                &&& new.params.password@ == trimmed(text@)
                &&& connect_sent(old.pwd_prompts@, old.mfa_rounds, new, r)
            },
        },
        (Stage::AwaitConnectReply, Event::Response(res)) => match res {
            Ok(ServiceResponse::Success) => asks_status(old, After::Finish, new, r),
            Ok(ServiceResponse::Error(m)) => ends(old, new, r, Err(CommandError::Protocol(m))),
            Ok(_) => ends(old, new, r, Err(CommandError::InvalidResponse)),
            Err(t) => ends(old, new, r, Err(CommandError::Transport(t))),
        },
        (Stage::AwaitDisconnectReply { reconnect }, Event::Response(res)) => if reconnect {
            match res {
                Err(_) => {
                    &&& keeps(old, new)
                    &&& new.stage == (Stage::FetchingPrompts { reconnect: true })
                    &&& r == Action::FetchPrompts
                },
                Ok(_) => asks_status(old, After::Reconnect, new, r),
            }
        } else {
            match res {
                Ok(ServiceResponse::Success) => asks_status(old, After::Finish, new, r),
                Ok(ServiceResponse::Error(m)) => ends(old, new, r, Err(CommandError::Protocol(m))),
                Ok(_) => ends(old, new, r, Err(CommandError::InvalidResponse)),
                Err(t) => ends(old, new, r, Err(CommandError::Transport(t))),
            }
        },
        (Stage::AwaitInfo, Event::Info(res)) => match res {
            Ok(_) => ends(old, new, r, Ok(ConnectionStatus { connected_since: None, mfa: None })),
            Err(x) => ends(old, new, r, Err(CommandError::Info(x))),
        },
        _ => ends(old, new, r, Err(CommandError::UnexpectedEvent)),
    }
}

impl ServiceController {
    /// A controller for the given options, with no prompts queued.
    pub fn with_params(params: TunnelParams) -> (r: ServiceController)
        ensures
            r.params == params,
            r.pwd_prompts@.len() == 0,
            r.stage == Stage::Idle,
            r.mfa_rounds == 0,
    {
        ServiceController { params, pwd_prompts: VecDeque::new(), stage: Stage::Idle, mfa_rounds: 0 }
    }

    /// Begins a command; any command under way is dropped.
    pub fn start(&mut self, command: ServiceCommand) -> (r: Action)
        ensures
            start_spec(*old(self), command, *final(self), r),
    {
        self.mfa_rounds = 0;
        match command {
            ServiceCommand::Status => {
                self.stage = Stage::AwaitStatus { after: After::Finish };
                Action::Send(ServiceRequest::GetStatus, Timeout::Short)
            },
            ServiceCommand::Connect => {
                if self.params.server_name.as_str().is_empty() || self.params.login_type.as_str().is_empty() {
                    self.stage = Stage::Done;
                    Action::Finish(Err(CommandError::MissingParameters))
                } else {
                    self.stage = Stage::FetchingPrompts { reconnect: false };
                    Action::FetchPrompts
                }
            },
            ServiceCommand::Disconnect => {
                self.stage = Stage::AwaitStatus { after: After::Disconnect };
                Action::Send(ServiceRequest::GetStatus, Timeout::Short)
            },
            ServiceCommand::Reconnect => {
                self.stage = Stage::AwaitDisconnectReply { reconnect: true };
                Action::Send(ServiceRequest::Disconnect, Timeout::Short)
            },
            ServiceCommand::Info => {
                self.stage = Stage::AwaitInfo;
                Action::ShowInfo
            },
        }
    }

    fn finish(&mut self, res: Result<ConnectionStatus, CommandError>) -> (r: Action)
        ensures
            ends(*old(self), *final(self), r, res),
    {
        self.stage = Stage::Done;
        Action::Finish(res)
    }

    fn fail(&mut self, after: After, err: CommandError) -> (r: Action)
        ensures
            failed(*old(self), after, err, *final(self), r),
    {
        if after == After::Reconnect {
            self.stage = Stage::FetchingPrompts { reconnect: true };
            Action::FetchPrompts
        } else {
            self.finish(Err(err))
        }
    }

    fn ask_status(&mut self, after: After) -> (r: Action)
        ensures
            asks_status(*old(self), after, *final(self), r),
    {
        self.stage = Stage::AwaitStatus { after };
        Action::Send(ServiceRequest::GetStatus, Timeout::Short)
    }

    fn send_connect(&mut self) -> (r: Action)
        ensures
            final(self).params == old(self).params,
            connect_sent(old(self).pwd_prompts@, old(self).mfa_rounds, *final(self), r),
    {
        self.stage = Stage::AwaitConnectReply;
        Action::Send(ServiceRequest::Connect(self.params.duplicate()), Timeout::Long)
    }

    fn password_prompt(&mut self) -> (r: String)
        ensures
            final(self).params == old(self).params,
            final(self).mfa_rounds == old(self).mfa_rounds,
            final(self).stage == old(self).stage,
            if old(self).pwd_prompts@.len() > 0 {
                &&& r == old(self).pwd_prompts@[0]
                &&& final(self).pwd_prompts@ == old(self).pwd_prompts@.subrange(1, old(self).pwd_prompts@.len() as int)
            } else {
                &&& r@ == default_prompt(old(self).params.user_name@)
                &&& final(self).pwd_prompts@ == old(self).pwd_prompts@
            },
    {
        match self.pwd_prompts.pop_front() {
            Some(text) => text,
            None => {
                let mut text = String::from_str("Enter password for ");
                text.append(self.params.user_name.as_str());
                text.append(": ");
                text
            },
        }
    }

    fn begin_connect(&mut self) -> (r: Action)
        ensures
            connect_begun(old(self).params, old(self).pwd_prompts@, old(self).mfa_rounds, *final(self), r),
    {
        if self.params.server_name.as_str().is_empty() || self.params.login_type.as_str().is_empty() {
            self.finish(Err(CommandError::MissingParameters))
        } else if self.params.password.as_str().is_empty() && self.params.client_cert.is_none() {
            if !self.params.no_keychain {
                self.stage = Stage::AwaitPassword;
                Action::AcquirePassword(self.params.user_name.clone())
            } else {
                let text = self.password_prompt();
                self.stage = Stage::AwaitPasswordInput;
                Action::PromptPassword(text)
            }
        } else {
            self.send_connect()
        }
    }

    fn settle(&mut self, after: After, s: ConnectionStatus) -> (r: Action)
        ensures
            settled(*old(self), after, s, *final(self), r),
    {
        match after {
            After::Finish => self.finish(Ok(s)),
            After::Connect => self.begin_connect(),
            After::Disconnect => {
                self.stage = Stage::AwaitDisconnectReply { reconnect: false };
                Action::Send(ServiceRequest::Disconnect, Timeout::Short)
            },
            After::Reconnect => {
                self.stage = Stage::FetchingPrompts { reconnect: true };
                Action::FetchPrompts
            },
        }
    }
    fn answer_status(&mut self, after: After, res: Result<ServiceResponse, String>) -> (r: Action)
        ensures
            status_answered(*old(self), after, res, *final(self), r),
    {
        match res {
            Err(t) => self.fail(after, CommandError::Transport(t)),
            Ok(ServiceResponse::ConnectionStatus(s)) => {
                if s.connected_since.is_none() && s.mfa.is_some() {
                    if self.mfa_rounds >= MAX_MFA_ROUNDS {
                        self.fail(after, CommandError::TooManyChallenges)
                    } else {
                        self.mfa_rounds = self.mfa_rounds + 1;
                        self.stage = Stage::AwaitChallengeInput { after };
                        match s.mfa {
                            Some(m) => match m.mfa_type {
                                MfaType::UserInput => Action::PromptChallenge(m.prompt),
                                MfaType::SamlSso => Action::OpenSso(m.prompt),
                            },
                            None => Action::FetchPrompts,
                        }
                    }
                } else if s.connected_since.is_some() && !self.params.password.as_str().is_empty()
                    && !self.params.no_keychain {
                    let user = self.params.user_name.clone();
                    let password = self.params.password.clone();
                    self.stage = Stage::AwaitStore { after, status: s };
                    Action::StorePassword(user, password)
                } else {
                    self.settle(after, s)
                }
            },
            Ok(_) => self.fail(after, CommandError::InvalidResponse),
        }
    }

    /// Takes the outcome of the last action and returns the next one.
    pub fn step(&mut self, event: Event) -> (r: Action)
        ensures
            step_spec(*old(self), event, *final(self), r),
    {
        let mut stage = Stage::Done;
        std::mem::swap(&mut stage, &mut self.stage);
        match (stage, event) {
            (Stage::AwaitStatus { after }, Event::Response(res)) => self.answer_status(after, res),
            (Stage::AwaitChallengeInput { after }, Event::Input(res)) => match res {
                Err(x) => self.fail(after, CommandError::Input(x)),
                Ok(code) => {
                    self.stage = Stage::AwaitChallengeReply { after };
                    Action::Send(ServiceRequest::ChallengeCode(code, self.params.duplicate()), Timeout::Long)
                },
            },
            (Stage::AwaitChallengeReply { after }, Event::Response(res)) => match res {
                Ok(ServiceResponse::Success) => self.ask_status(after),
                Ok(ServiceResponse::Error(m)) => self.fail(after, CommandError::Protocol(m)),
                Ok(_) => self.fail(after, CommandError::InvalidResponse),
                Err(t) => self.fail(after, CommandError::Transport(t)),
            },
            (Stage::AwaitStore { after, status }, Event::Stored) => self.settle(after, status),
            (Stage::FetchingPrompts { reconnect }, Event::Prompts(v)) => {
                self.pwd_prompts = queue_of(&v);
                if reconnect {
                    self.begin_connect()
                } else {
                    self.ask_status(After::Connect)
                }
            },
            (Stage::AwaitPassword, Event::Password(o)) => {
                if let Some(pw) = o {
                    self.params.password = pw;
                }
                self.send_connect()
            },
            (Stage::AwaitPasswordInput, Event::Input(res)) => match res {
                Err(x) => self.finish(Err(CommandError::Input(x))),
                Ok(text) => {
                    self.params.password = trim_text(text.as_str());
                    self.send_connect()
                },
            },
            (Stage::AwaitConnectReply, Event::Response(res)) => match res {
                Ok(ServiceResponse::Success) => self.ask_status(After::Finish),
                Ok(ServiceResponse::Error(m)) => self.finish(Err(CommandError::Protocol(m))),
                Ok(_) => self.finish(Err(CommandError::InvalidResponse)),
                Err(t) => self.finish(Err(CommandError::Transport(t))),
            },
            (Stage::AwaitDisconnectReply { reconnect }, Event::Response(res)) => if reconnect {
                match res {
                    Err(_) => {
                        self.stage = Stage::FetchingPrompts { reconnect: true };
                        Action::FetchPrompts
                    },
                    Ok(_) => self.ask_status(After::Reconnect),
                }
            } else {
                match res {
                    Ok(ServiceResponse::Success) => self.ask_status(After::Finish),
                    Ok(ServiceResponse::Error(m)) => self.finish(Err(CommandError::Protocol(m))),
                    Ok(_) => self.finish(Err(CommandError::InvalidResponse)),
                    Err(t) => self.finish(Err(CommandError::Transport(t))),
                }
            },
            (Stage::AwaitInfo, Event::Info(res)) => match res {
                Ok(_) => self.finish(Ok(ConnectionStatus::disconnected())),
                Err(x) => self.finish(Err(CommandError::Info(x))),
            },
            _ => self.finish(Err(CommandError::UnexpectedEvent)),
        }
    }
}

} // verus!
