//! Virtual machine lifecycle state and the outcome of lifecycle operations.

use vstd::prelude::*;

use crate::error::{KasouError, KasouErrorView};
use crate::text::string_of;
use crate::text::push_str;

verus! {

/// VM lifecycle state as observed from Rust.
#[derive(Debug, Clone, Copy, PartialEq, Eq, Structural)]
pub enum VmState {
    Stopped,
    Starting,
    Running,
    Pausing,
    Paused,
    Resuming,
    Stopping,
    Error,
}

/// The display name of each state.
pub open spec fn state_name(s: VmState) -> Seq<char> {
    match s {
        VmState::Stopped => "stopped"@,
        VmState::Starting => "starting"@,
        VmState::Running => "running"@,
        VmState::Pausing => "pausing"@,
        VmState::Paused => "paused"@,
        VmState::Resuming => "resuming"@,
        VmState::Stopping => "stopping"@,
        VmState::Error => "error"@,
    }
}

/// The state that a raw `VZVirtualMachineState` value stands for: the
/// framework's codes are 0 stopped, 1 running, 2 paused, 3 error,
/// 4 starting, 5 pausing, 6 resuming, 7 stopping; any other code (saving,
/// restoring, or one unknown to this library) is reported as an error state.
pub open spec fn state_of_code(code: isize) -> VmState {
    if code == 0 {
        VmState::Stopped
    } else if code == 1 {
        VmState::Running
    } else if code == 2 {
        VmState::Paused
    } else if code == 3 {
        VmState::Error
    } else if code == 4 {
        VmState::Starting
    } else if code == 5 {
        VmState::Pausing
    } else if code == 6 {
        VmState::Resuming
    } else if code == 7 {
        VmState::Stopping
    } else {
        VmState::Error
    }
}

impl VmState {
    /// Whether this state represents a running VM that needs cleanup.
    pub fn is_active(self) -> (r: bool)
        ensures
            r <==> (self == VmState::Starting || self == VmState::Running || self
                == VmState::Pausing || self == VmState::Paused || self == VmState::Resuming),
    {
        match self {
            VmState::Starting | VmState::Running | VmState::Pausing | VmState::Paused
            | VmState::Resuming => true,
            _ => false,
        }
    }

    /// Maps a raw `VZVirtualMachineState` code to a state.
    pub fn from_vz_code(code: isize) -> (r: VmState)
        ensures
            r == state_of_code(code),
    {
        match code {
            0 => VmState::Stopped,
            1 => VmState::Running,
            2 => VmState::Paused,
            3 => VmState::Error,
            4 => VmState::Starting,
            5 => VmState::Pausing,
            6 => VmState::Resuming,
            7 => VmState::Stopping,
            _ => VmState::Error,
        }
    }

    /// The lowercase display name of the state.
    pub fn name(self) -> (r: &'static str)
        ensures
            r@ == state_name(self),
    {
        match self {
            VmState::Stopped => "stopped",
            VmState::Starting => "starting",
            VmState::Running => "running",
            VmState::Pausing => "pausing",
            VmState::Paused => "paused",
            VmState::Resuming => "resuming",
            VmState::Stopping => "stopping",
            VmState::Error => "error",
        }
    }

    /// The display text of the state, e.g. `"running"`.
    pub fn to_string(&self) -> (r: String)
        ensures
            r@ == state_name(*self),
    {
        let mut buf: Vec<char> = Vec::new();
        push_str(&mut buf, self.name());
        string_of(&buf)
    }
}

/// The error reported when a lifecycle operation named `op` (such as
/// `"start"`, `"stop"` or `"request stop"`) fails with the framework's
/// description `detail`.
pub open spec fn operation_failure(op: Seq<char>, detail: Seq<char>) -> KasouErrorView {
    KasouErrorView::OperationFailed(op + " failed: "@ + detail)
}

/// The outcome of a lifecycle operation whose completion handler reported
/// `failure` (the framework error's localized description), or no error.
pub fn operation_result(op: &str, failure: Option<String>) -> (r: Result<(), KasouError>)
    ensures
        match failure {
            None => r is Ok,
            Some(d) => r matches Err(e) && e@ == operation_failure(op@, d@),
        },
{
    match failure {
        None => Ok(()),
        Some(detail) => {
            let mut buf: Vec<char> = Vec::new();
            push_str(&mut buf, op);
            push_str(&mut buf, " failed: ");
            push_str(&mut buf, detail.as_str());
            let msg = string_of(&buf);
            assert(msg@ =~= op@ + " failed: "@ + detail@);
            Err(KasouError::OperationFailed(msg))
        },
    }
}

} // verus!
