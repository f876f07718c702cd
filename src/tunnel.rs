use vstd::prelude::*;

verus! {

/// Why a tunnel could not be set up or stopped running.
#[derive(Debug, Clone, PartialEq, Eq)]
pub enum TunnelError {
    /// Fetching the session's settings or parameters, or configuring the platform, failed.
    Establish(String),
    /// The data path failed while running: the listener did not start or the keepalive gave up.
    Runtime(String),
}

/// Where an IPsec tunnel stands in its life.
#[derive(Debug, Clone, Copy, PartialEq, Eq, Structural)]
pub enum Phase {
    FetchingSettings,
    FetchingParams,
    Configuring,
    /// Set up and handed to its owner; platform state is installed.
    Established,
    StartingListener,
    Running,
    /// `run` has returned; platform state is still installed.
    Finished,
    /// Setup failed; nothing was installed.
    Failed,
    /// Platform state has been released.
    TornDown,
}

/// Work that the tunnel hands to its driver.
#[derive(Debug, PartialEq, Eq)]
pub enum TunnelAction {
    /// Fetch the client settings of the session; this fixes the keepalive target.
    FetchClientSettings,
    /// Fetch the session's IPsec parameters.
    FetchIpsecParams,
    /// Install the platform state.
    Configure,
    /// Report how setup ended.
    Established(Result<(), TunnelError>),
    /// Start the decapsulation listener.
    StartListener,
    /// Set the shared connected flag, then wait for the stop signal or the end of the keepalive.
    MarkConnected,
    /// `run` returns `result`, after sending the listener its stop signal if `stop_listener`.
    EndRun { stop_listener: bool, result: Result<(), TunnelError> },
    /// Release the platform state and wait until that is complete.
    Cleanup,
    /// Nothing to do.
    Idle,
}

/// What the driver reports back to the tunnel.
#[derive(Debug, PartialEq, Eq)]
pub enum TunnelEvent {
    ClientSettings(Result<(), String>),
    IpsecParams(Result<(), String>),
    Configured(Result<(), String>),
    /// The owner runs the tunnel.
    Run,
    ListenerStarted(Result<(), String>),
    StopSignal,
    KeepaliveEnded(Result<(), String>),
    /// The owner lets go of the tunnel.
    TearDown,
}

/// The life of an IPsec tunnel.
pub struct IpsecTunnel {
    pub phase: Phase,
}

/// The phases in which platform state is installed and its release is owed.
pub open spec fn owes_cleanup(p: Phase) -> bool {
    p == Phase::Established || p == Phase::StartingListener || p == Phase::Running || p == Phase::Finished
}

/// The result of a step from the driver, as the tunnel reports it.
pub open spec fn runtime_result(res: Result<(), String>) -> Result<(), TunnelError> {
    match res {
        Ok(_) => Ok(()),
        Err(x) => Err(TunnelError::Runtime(x)),
    }
}

/// What `step` does with an event in a phase; an event that the phase does not
/// wait for changes nothing.
pub open spec fn tunnel_step_spec(old: Phase, e: TunnelEvent, new: Phase, r: TunnelAction) -> bool {
    match (old, e) {
        (Phase::FetchingSettings, TunnelEvent::ClientSettings(res)) => match res {
            Ok(_) => new == Phase::FetchingParams && r == TunnelAction::FetchIpsecParams,
            Err(x) => new == Phase::Failed && r == TunnelAction::Established(Err(TunnelError::Establish(x))),
        },
        (Phase::FetchingParams, TunnelEvent::IpsecParams(res)) => match res {
            Ok(_) => new == Phase::Configuring && r == TunnelAction::Configure,
            Err(x) => new == Phase::Failed && r == TunnelAction::Established(Err(TunnelError::Establish(x))),
        },
        (Phase::Configuring, TunnelEvent::Configured(res)) => match res {
            Ok(_) => new == Phase::Established && r == TunnelAction::Established(Ok(())),
            Err(x) => new == Phase::Failed && r == TunnelAction::Established(Err(TunnelError::Establish(x))),
        },
        (Phase::Established, TunnelEvent::Run) => new == Phase::StartingListener && r == TunnelAction::StartListener,
        (Phase::StartingListener, TunnelEvent::ListenerStarted(res)) => match res {
            Ok(_) => new == Phase::Running && r == TunnelAction::MarkConnected,
            Err(x) => new == Phase::Finished
                && r == (TunnelAction::EndRun { stop_listener: false, result: Err(TunnelError::Runtime(x)) }),
        },
        (Phase::Running, TunnelEvent::StopSignal) => new == Phase::Finished
            && r == (TunnelAction::EndRun { stop_listener: true, result: Ok(()) }),
        (Phase::Running, TunnelEvent::KeepaliveEnded(res)) => new == Phase::Finished
            && r == (TunnelAction::EndRun { stop_listener: false, result: runtime_result(res) }),
        (_, TunnelEvent::TearDown) => new == Phase::TornDown
            && r == (if owes_cleanup(old) { TunnelAction::Cleanup } else { TunnelAction::Idle }),
        _ => new == old && r == TunnelAction::Idle,
    }
}

impl IpsecTunnel {
    /// Begins setting up a tunnel for a negotiated session.
    pub fn create() -> (r: (IpsecTunnel, TunnelAction))
        ensures
            r.0.phase == Phase::FetchingSettings,
            r.1 == TunnelAction::FetchClientSettings,
    {
        (IpsecTunnel { phase: Phase::FetchingSettings }, TunnelAction::FetchClientSettings)
    }

    /// Takes the outcome of the last action and returns the next one.
    pub fn step(&mut self, event: TunnelEvent) -> (r: TunnelAction)
        ensures
            tunnel_step_spec(old(self).phase, event, final(self).phase, r),
    {
        let (phase, action) = match (self.phase, event) {
            (Phase::FetchingSettings, TunnelEvent::ClientSettings(res)) => match res {
                Ok(_) => (Phase::FetchingParams, TunnelAction::FetchIpsecParams),
                Err(x) => (Phase::Failed, TunnelAction::Established(Err(TunnelError::Establish(x)))),
            },
            (Phase::FetchingParams, TunnelEvent::IpsecParams(res)) => match res {
                Ok(_) => (Phase::Configuring, TunnelAction::Configure),
                Err(x) => (Phase::Failed, TunnelAction::Established(Err(TunnelError::Establish(x)))),
            },
            (Phase::Configuring, TunnelEvent::Configured(res)) => match res {
                Ok(_) => (Phase::Established, TunnelAction::Established(Ok(()))),
                Err(x) => (Phase::Failed, TunnelAction::Established(Err(TunnelError::Establish(x)))),
            },
            (Phase::Established, TunnelEvent::Run) => (Phase::StartingListener, TunnelAction::StartListener),
            (Phase::StartingListener, TunnelEvent::ListenerStarted(res)) => match res {
                Ok(_) => (Phase::Running, TunnelAction::MarkConnected),
                Err(x) => (
                    Phase::Finished,
                    TunnelAction::EndRun { stop_listener: false, result: Err(TunnelError::Runtime(x)) },
                ),
            },
            (Phase::Running, TunnelEvent::StopSignal) => (
                Phase::Finished,
                TunnelAction::EndRun { stop_listener: true, result: Ok(()) },
            ),
            (Phase::Running, TunnelEvent::KeepaliveEnded(res)) => {
                let result = match res {
                    Ok(_) => Ok(()),
                    Err(x) => Err(TunnelError::Runtime(x)),
                };
                (Phase::Finished, TunnelAction::EndRun { stop_listener: false, result })
            },
            (p, TunnelEvent::TearDown) => {
                let owed = p == Phase::Established || p == Phase::StartingListener || p == Phase::Running
                    || p == Phase::Finished;
                (Phase::TornDown, if owed { TunnelAction::Cleanup } else { TunnelAction::Idle })
            },
            (p, _) => (p, TunnelAction::Idle),
        };
        self.phase = phase;
        action
    }
}

/// Platform state is released exactly once for each tunnel that was set up:
/// a step asks for the release only when it is owed and the owner lets go, the
/// debt arises only when setup succeeds, and it lasts until it is paid.
pub proof fn lemma_cleanup_exactly_once(old: Phase, e: TunnelEvent, new: Phase, r: TunnelAction)
    requires
        tunnel_step_spec(old, e, new, r),
    ensures
        (r == TunnelAction::Cleanup) == (owes_cleanup(old) && e == TunnelEvent::TearDown),
        owes_cleanup(new) == ((owes_cleanup(old) && e != TunnelEvent::TearDown)
            || (old == Phase::Configuring && e matches TunnelEvent::Configured(Ok(_)))),
        old == Phase::TornDown ==> new == Phase::TornDown,
{
}

/// Both ways out of a running tunnel leave its release owed: on the stop signal
/// the listener is told to stop and `run` succeeds; when the keepalive ends, its
/// outcome is the outcome of `run`. Letting go afterwards releases once.
pub proof fn lemma_run_branches_then_cleanup(
    e: TunnelEvent,
    mid: Phase,
    r1: TunnelAction,
    last: Phase,
    r2: TunnelAction,
)
    requires
        e == TunnelEvent::StopSignal || e is KeepaliveEnded,
        tunnel_step_spec(Phase::Running, e, mid, r1),
        tunnel_step_spec(mid, TunnelEvent::TearDown, last, r2),
    ensures
        e == TunnelEvent::StopSignal ==> r1 == (TunnelAction::EndRun { stop_listener: true, result: Ok(()) }),
        e matches TunnelEvent::KeepaliveEnded(res) ==> r1 == (TunnelAction::EndRun {
            stop_listener: false,
            result: runtime_result(res),
        }),
        r2 == TunnelAction::Cleanup,
        last == Phase::TornDown,
{
}

} // verus!
