use vstd::prelude::*;

verus! {

/// Connection options for one attempt to bring the tunnel up.
#[derive(Debug, Clone, PartialEq, Eq)]
pub struct TunnelParams {
    pub server_name: String,
    pub login_type: String,
    pub user_name: String,
    pub password: String,
    pub client_cert: Option<String>,
    pub no_keychain: bool,
}

impl TunnelParams {
    /// An independent copy of these options.
    pub fn duplicate(&self) -> (r: TunnelParams)
        ensures
            r == *self,
    {
        let client_cert = match &self.client_cert {
            Some(c) => Some(c.clone()),
            None => None,
        };
        TunnelParams {
            server_name: self.server_name.clone(),
            login_type: self.login_type.clone(),
            user_name: self.user_name.clone(),
            password: self.password.clone(),
            client_cert,
            no_keychain: self.no_keychain,
        }
    }
}

/// How a multi-factor challenge is to be answered.
#[derive(Debug, Clone, Copy, PartialEq, Eq, Structural)]
pub enum MfaType {
    /// The prompt is a question put to the user.
    UserInput,
    /// The prompt is a URL to open; a local listener then receives a one-time code.
    SamlSso,
}

/// A further factor that the server asks for before the session is up.
#[derive(Debug, Clone, PartialEq, Eq)]
pub struct MfaChallenge {
    pub mfa_type: MfaType,
    pub prompt: String,
}

/// The state of the tunnel as the background service reports it.
#[derive(Debug, Clone, PartialEq, Eq)]
pub struct ConnectionStatus {
    /// Seconds since the Unix epoch at which the tunnel came up; `None` while down.
    pub connected_since: Option<u64>,
    /// A pending multi-factor challenge.
    pub mfa: Option<MfaChallenge>,
}

impl ConnectionStatus {
    /// The status of a tunnel that is down with nothing pending.
    pub fn disconnected() -> (r: ConnectionStatus)
        ensures
            r.connected_since.is_none(),
            r.mfa.is_none(),
    {
        ConnectionStatus { connected_since: None, mfa: None }
    }
}

impl Default for ConnectionStatus {
    fn default() -> (r: ConnectionStatus)
        ensures
            r.connected_since.is_none(),
            r.mfa.is_none(),
    {
        ConnectionStatus::disconnected()
    }
}

/// A message from the front end to the background service.
#[derive(Debug, Clone, PartialEq, Eq)]
pub enum ServiceRequest {
    GetStatus,
    Connect(TunnelParams),
    ChallengeCode(String, TunnelParams),
    Disconnect,
}

/// The background service's answer to a request.
#[derive(Debug, Clone, PartialEq, Eq)]
pub enum ServiceResponse {
    Success,
    Error(String),
    ConnectionStatus(ConnectionStatus),
}

} // verus!
