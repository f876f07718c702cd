use snxctl::command::ServiceCommand;

#[test]
fn parses_each_command_name() {
    assert_eq!(ServiceCommand::parse("status").unwrap(), ServiceCommand::Status);
    assert_eq!(ServiceCommand::parse("connect").unwrap(), ServiceCommand::Connect);
    assert_eq!(ServiceCommand::parse("disconnect").unwrap(), ServiceCommand::Disconnect);
    assert_eq!(ServiceCommand::parse("reconnect").unwrap(), ServiceCommand::Reconnect);
    assert_eq!(ServiceCommand::parse("info").unwrap(), ServiceCommand::Info);
}

#[test]
fn parsing_ignores_case() {
    assert_eq!(ServiceCommand::parse("CoNNeCT").unwrap(), ServiceCommand::Connect);
    assert_eq!(ServiceCommand::parse("STATUS").unwrap(), ServiceCommand::Status);
    let c: ServiceCommand = "Info".parse().unwrap();
    assert_eq!(c, ServiceCommand::Info);
    let e = "Stop".parse::<ServiceCommand>().unwrap_err();
    assert_eq!(e.text, "stop");
}

#[test]
fn unknown_command_is_an_error() {
    let e = ServiceCommand::parse("Restart").unwrap_err();
    assert_eq!(e.text, "restart");
    assert_eq!(e.message(), "Invalid command: restart");
    assert!(ServiceCommand::parse("").is_err());
    assert!(ServiceCommand::parse(" status").is_err());
}

#[test]
fn from_lowercase_is_exact() {
    assert_eq!(ServiceCommand::from_lowercase("reconnect").unwrap(), ServiceCommand::Reconnect);
    assert!(ServiceCommand::from_lowercase("Reconnect").is_err());
}
