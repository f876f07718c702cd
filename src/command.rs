use vstd::prelude::*;

verus! {

/// A request from the user to the background service.
#[derive(Debug, Clone, Copy, PartialEq, Eq, Structural)]
pub enum ServiceCommand {
    Status,
    Connect,
    Disconnect,
    Reconnect,
    Info,
}

/// The text given was not one of the five command names.
#[derive(Debug, Clone, PartialEq, Eq)]
pub struct ParseCommandError {
    /// The offending text, in lower case.
    pub text: String,
}

/// What `str::to_lowercase` returns for a string.
pub uninterp spec fn lower_of(s: Seq<char>) -> Seq<char>;

/// The command named by already lower-cased text, if any.
pub open spec fn command_named(t: Seq<char>) -> Option<ServiceCommand> {
    if t == "status"@ {
        Some(ServiceCommand::Status)
    } else if t == "connect"@ {
        Some(ServiceCommand::Connect)
    } else if t == "disconnect"@ {
        Some(ServiceCommand::Disconnect)
    } else if t == "reconnect"@ {
        Some(ServiceCommand::Reconnect)
    } else if t == "info"@ {
        Some(ServiceCommand::Info)
    } else {
        None
    }
}

/// Relies on `str::to_lowercase`: the result depends on the characters alone.
#[verifier::external_body]
fn lowercase(s: &str) -> (r: String)
    ensures
        r@ == lower_of(s@),
{
    s.to_lowercase()
}

impl ServiceCommand {
    /// Parses a command name that is already in lower case.
    pub fn from_lowercase(t: &str) -> (r: Result<ServiceCommand, ParseCommandError>)
        ensures
            match r {
                Ok(c) => command_named(t@) == Some(c),
                Err(e) => command_named(t@).is_none() && e.text@ == t@,
            },
    {
        proof {
            reveal_strlit("status");
            reveal_strlit("connect");
            reveal_strlit("disconnect");
            reveal_strlit("reconnect");
            reveal_strlit("info");
        }
        let t = t.to_owned();
        if t == String::from_str("status") {
            Ok(ServiceCommand::Status)
        } else if t == String::from_str("connect") {
            Ok(ServiceCommand::Connect)
        } else if t == String::from_str("disconnect") {
            Ok(ServiceCommand::Disconnect)
        } else if t == String::from_str("reconnect") {
            Ok(ServiceCommand::Reconnect)
        } else if t == String::from_str("info") {
            Ok(ServiceCommand::Info)
        } else {
            Err(ParseCommandError { text: t })
        }
    }

    /// Parses a command name, ignoring case.
    pub fn parse(s: &str) -> (r: Result<ServiceCommand, ParseCommandError>)
        ensures
            match r {
                Ok(c) => command_named(lower_of(s@)) == Some(c),
                Err(e) => command_named(lower_of(s@)).is_none() && e.text@ == lower_of(s@),
            },
    {
        let t = lowercase(s);
        ServiceCommand::from_lowercase(t.as_str())
    }
}

impl ParseCommandError {
    /// The message shown to the user.
    pub fn message(&self) -> (r: String)
        ensures
            r@ == "Invalid command: "@ + self.text@,
    {
        let mut r = String::from_str("Invalid command: ");
        r.append(self.text.as_str());
        r
    }
}

impl std::str::FromStr for ServiceCommand {
    type Err = ParseCommandError;

    fn from_str(s: &str) -> (r: Result<ServiceCommand, ParseCommandError>)
        ensures
            match r {
                Ok(c) => command_named(lower_of(s@)) == Some(c),
                Err(e) => command_named(lower_of(s@)).is_none() && e.text@ == lower_of(s@),
            },
    {
        ServiceCommand::parse(s)
    }
}

} // verus!
