//! The status record that a service publishes to the service manager.

use vstd::prelude::*;

verus! {

/// Exit code that reports success.
pub const EXIT_SUCCESS: u32 = 0;

/// How the service manager hosts the service.
#[derive(Clone, Copy, Debug, PartialEq, Eq)]
pub enum ServiceKind {
    /// The service has a process of its own.
    OwnProcess,
    /// The service shares its process with other services.
    SharedProcess,
}

impl ServiceKind {
    /// The service manager's code for this kind.
    pub open spec fn raw(self) -> u32 {
        match self {
            ServiceKind::OwnProcess => 0x10,
            ServiceKind::SharedProcess => 0x20,
        }
    }

    /// The service manager's code for this kind.
    pub fn to_raw(self) -> (code: u32)
        ensures
            code == self.raw(),
    {
        match self {
            ServiceKind::OwnProcess => 0x10,
            ServiceKind::SharedProcess => 0x20,
        }
    }
}

/// Lifecycle state that a status record announces.
#[derive(Clone, Copy, Debug, PartialEq, Eq)]
pub enum ServiceState {
    /// The service does its work and accepts a stop request.
    Running,
    /// A stop request was seen; the service is winding down.
    StopPending,
    /// The service has ended. This state is terminal.
    Stopped,
}

impl ServiceState {
    /// The service manager's code for this state.
    pub open spec fn raw(self) -> u32 {
        match self {
            ServiceState::Stopped => 1,
            ServiceState::StopPending => 3,
            ServiceState::Running => 4,
        }
    }

    /// Whether no other state may follow this one.
    pub open spec fn terminal(self) -> bool {
        self == ServiceState::Stopped
    }

    /// The state that a service in this state reports next, if any.
    pub open spec fn successor(self) -> Option<ServiceState> {
        match self {
            ServiceState::Running => Some(ServiceState::StopPending),
            ServiceState::StopPending => Some(ServiceState::Stopped),
            ServiceState::Stopped => None,
        }
    }

    /// The service manager's code for this state.
    pub fn to_raw(self) -> (code: u32)
        ensures
            code == self.raw(),
    {
        match self {
            ServiceState::Stopped => 1,
            ServiceState::StopPending => 3,
            ServiceState::Running => 4,
        }
    }

    /// Whether no other state may follow this one.
    pub fn is_terminal(self) -> (t: bool)
        ensures
            t == self.terminal(),
    {
        match self {
            ServiceState::Stopped => true,
            _ => false,
        }
    }
}

/// The control requests that a service is willing to receive.
///
/// A status query needs no consent; a stop request is the only one to accept.
#[derive(Clone, Copy, Debug, PartialEq, Eq)]
pub struct AcceptedControls {
    /// Whether a stop request is accepted.
    pub stop: bool,
}

impl AcceptedControls {
    /// The service manager's bit mask for this set.
    pub open spec fn mask(self) -> u32 {
        if self.stop {
            1
        } else {
            0
        }
    }

    /// The service manager's bit mask for this set.
    pub fn bits(self) -> (mask: u32)
        ensures
            mask == self.mask(),
    {
        if self.stop {
            1
        } else {
            0
        }
    }
}

/// One snapshot of the service's externally visible state.
#[derive(Clone, Copy, Debug, PartialEq, Eq)]
pub struct ServiceStatus {
    /// How the service is hosted.
    pub kind: ServiceKind,
    /// The lifecycle state.
    pub state: ServiceState,
    /// The control requests accepted in this state.
    pub accepted: AcceptedControls,
    /// `EXIT_SUCCESS`, or the platform's code of a failure.
    pub exit_code: u32,
    /// Progress marker of a long transition.
    pub checkpoint: u32,
    /// How long the service manager should wait before it takes the service
    /// for hung, in milliseconds.
    pub wait_hint_ms: u32,
    /// Process identifier; the service manager fills it in when asked.
    pub process_id: Option<u32>,
}

impl ServiceStatus {
    /// The snapshot that an own-process service reports in `state`: a stop
    /// request is accepted while running and in no other state, the exit code
    /// is success and no checkpoint is counted.
    pub open spec fn snapshot(state: ServiceState, wait_hint_ms: u32) -> ServiceStatus {
        ServiceStatus {
            kind: ServiceKind::OwnProcess,
            state,
            accepted: AcceptedControls { stop: state == ServiceState::Running },
            exit_code: EXIT_SUCCESS,
            checkpoint: 0,
            wait_hint_ms,
            process_id: None,
        }
    }

    /// Whether the accepted controls fit the state: a service that winds down
    /// or has ended accepts no stop request.
    pub open spec fn consistent(self) -> bool {
        self.accepted.stop ==> self.state == ServiceState::Running
    }

    /// Builds the snapshot for `state`.
    pub fn of(state: ServiceState, wait_hint_ms: u32) -> (status: ServiceStatus)
        ensures
            status == ServiceStatus::snapshot(state, wait_hint_ms),
    {
        let stop = match state {
            ServiceState::Running => true,
            _ => false,
        };
        ServiceStatus {
            kind: ServiceKind::OwnProcess,
            state,
            accepted: AcceptedControls { stop },
            exit_code: EXIT_SUCCESS,
            checkpoint: 0,
            wait_hint_ms,
            process_id: None,
        }
    }

    /// Whether the accepted controls fit the state.
    pub fn is_consistent(&self) -> (ok: bool)
        ensures
            ok == self.consistent(),
    {
        match self.state {
            ServiceState::Running => true,
            _ => !self.accepted.stop,
        }
    }
}

} // verus!
