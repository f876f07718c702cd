use snxctl::tunnel::{IpsecTunnel, Phase, TunnelAction, TunnelError, TunnelEvent};

fn established() -> IpsecTunnel {
    let (mut t, a) = IpsecTunnel::create();
    assert_eq!(a, TunnelAction::FetchClientSettings);
    assert_eq!(t.step(TunnelEvent::ClientSettings(Ok(()))), TunnelAction::FetchIpsecParams);
    assert_eq!(t.step(TunnelEvent::IpsecParams(Ok(()))), TunnelAction::Configure);
    assert_eq!(t.step(TunnelEvent::Configured(Ok(()))), TunnelAction::Established(Ok(())));
    assert_eq!(t.phase, Phase::Established);
    t
}

fn running() -> IpsecTunnel {
    let mut t = established();
    assert_eq!(t.step(TunnelEvent::Run), TunnelAction::StartListener);
    assert_eq!(t.step(TunnelEvent::ListenerStarted(Ok(()))), TunnelAction::MarkConnected);
    t
}

#[test]
fn stop_signal_stops_listener_and_cleans_up_once() {
    let mut t = running();
    assert_eq!(
        t.step(TunnelEvent::StopSignal),
        TunnelAction::EndRun { stop_listener: true, result: Ok(()) }
    );
    assert_eq!(t.step(TunnelEvent::TearDown), TunnelAction::Cleanup);
    assert_eq!(t.step(TunnelEvent::TearDown), TunnelAction::Idle);
    assert_eq!(t.phase, Phase::TornDown);
}

#[test]
fn keepalive_failure_ends_run_and_cleans_up_once() {
    let mut t = running();
    assert_eq!(
        t.step(TunnelEvent::KeepaliveEnded(Err("keepalive failed".to_string()))),
        TunnelAction::EndRun {
            stop_listener: false,
            result: Err(TunnelError::Runtime("keepalive failed".to_string()))
        }
    );
    assert_eq!(t.step(TunnelEvent::StopSignal), TunnelAction::Idle);
    assert_eq!(t.step(TunnelEvent::TearDown), TunnelAction::Cleanup);
    assert_eq!(t.step(TunnelEvent::TearDown), TunnelAction::Idle);
}

#[test]
fn dropped_without_run_still_cleans_up() {
    let mut t = established();
    assert_eq!(t.step(TunnelEvent::TearDown), TunnelAction::Cleanup);
    assert_eq!(t.step(TunnelEvent::Run), TunnelAction::Idle);
}

#[test]
fn failed_setup_owes_no_cleanup() {
    let (mut t, _) = IpsecTunnel::create();
    assert_eq!(t.step(TunnelEvent::ClientSettings(Ok(()))), TunnelAction::FetchIpsecParams);
    assert_eq!(t.step(TunnelEvent::IpsecParams(Ok(()))), TunnelAction::Configure);
    assert_eq!(
        t.step(TunnelEvent::Configured(Err("no xfrm".to_string()))),
        TunnelAction::Established(Err(TunnelError::Establish("no xfrm".to_string())))
    );
    assert_eq!(t.step(TunnelEvent::TearDown), TunnelAction::Idle);
}

#[test]
fn settings_failure_aborts_setup() {
    let (mut t, _) = IpsecTunnel::create();
    assert_eq!(
        t.step(TunnelEvent::ClientSettings(Err("http 500".to_string()))),
        TunnelAction::Established(Err(TunnelError::Establish("http 500".to_string())))
    );
    assert_eq!(t.phase, Phase::Failed);
}

#[test]
fn listener_failure_ends_run() {
    let mut t = established();
    assert_eq!(t.step(TunnelEvent::Run), TunnelAction::StartListener);
    assert_eq!(
        t.step(TunnelEvent::ListenerStarted(Err("bind".to_string()))),
        TunnelAction::EndRun { stop_listener: false, result: Err(TunnelError::Runtime("bind".to_string())) }
    );
    assert_eq!(t.step(TunnelEvent::TearDown), TunnelAction::Cleanup);
}
