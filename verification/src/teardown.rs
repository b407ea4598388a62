//! Releasing an enclave.
//!
//! Two things are released, in this order: the enclave's process is sent a
//! termination signal, and the bridge configuration file is deleted. Neither
//! can fail the teardown, and neither stands in the way of the other.

use vstd::prelude::*;
use crate::bridge::{bridge_config_path, bridge_path};

verus! {

/// First stage: the enclave's process is to be terminated.
#[derive(Debug)]
pub struct Terminate {
    pid: i32,
}

/// Second stage: the bridge configuration file is to be deleted.
#[derive(Debug)]
pub struct RemoveBridge {
    pid: i32,
}

impl Terminate {
    /// The process to signal.
    pub closed spec fn spec_pid(&self) -> int {
        self.pid as int
    }

    pub(crate) fn new(pid: i32) -> (stage: Self)
        ensures
            stage.spec_pid() == pid,
    {
        Terminate { pid }
    }

    /// The process to send the termination signal to.
    pub fn pid(&self) -> (pid: i32)
        ensures
            pid == self.spec_pid(),
    {
        self.pid
    }

    /// What follows the signal.
    pub closed spec fn spec_signalled(self, outcome: Result<(), String>) -> RemoveBridge {
        RemoveBridge { pid: self.pid }
    }

    /// Takes what came of the signal. Whatever it was, the bridge file is
    /// next; a signal that could not be delivered is not reported.
    pub fn signalled(self, outcome: Result<(), String>) -> (next: RemoveBridge)
        ensures
            next == self.spec_signalled(outcome),
            next.spec_pid() == self.spec_pid(),
    {
        RemoveBridge { pid: self.pid }
    }
}

impl RemoveBridge {
    /// The process that was signalled.
    pub closed spec fn spec_pid(&self) -> int {
        self.pid as int
    }

    /// The file to delete.
    pub open spec fn spec_path(&self) -> Seq<char> {
        bridge_config_path()
    }

    /// What the teardown ends with: the warning to log, if any.
    pub open spec fn spec_removed(self, outcome: Result<(), String>) -> Option<String> {
        match outcome {
            Ok(_) => None,
            Err(cause) => Some(cause),
        }
    }

    /// The file to delete.
    pub fn path(&self) -> (path: String)
        ensures
            path@ == self.spec_path(),
    {
        bridge_path()
    }

    /// Takes what came of the deletion and ends the teardown. A failure is
    /// handed back as a warning to log; it is no error.
    pub fn removed(self, outcome: Result<(), String>) -> (warning: Option<String>)
        ensures
            warning == self.spec_removed(outcome),
    {
        match outcome {
            Ok(_) => None,
            Err(cause) => Some(cause),
        }
    }
}

/// A teardown always tries both releases, and a failure of the first does not
/// keep it from the second: whatever comes of the signal, what follows is the
/// deletion of the bridge configuration file, and it is the same deletion
/// whether the signal was delivered or not. Whatever comes of the deletion,
/// the teardown ends, with at most a warning.
pub proof fn law_teardown_attempts_both(
    stage: Terminate,
    signalled: Result<(), String>,
    otherwise: Result<(), String>,
    removed: Result<(), String>,
)
    ensures
        stage.spec_signalled(signalled) == stage.spec_signalled(otherwise),
        stage.spec_signalled(signalled).spec_pid() == stage.spec_pid(),
        stage.spec_signalled(signalled).spec_path() == bridge_config_path(),
        stage.spec_signalled(signalled).spec_removed(removed) is Some <==> removed is Err,
{
}

} // verus!
