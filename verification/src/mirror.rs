//! The mirror process supervisor: a two-state machine (`Idle`,
//! `Running(child)`) that owns at most one mirroring child at any time and
//! guarantees stop-before-start.
//!
//! The supervisor decides; the surrounding application spawns, probes,
//! signals and reaps the actual process and reports the outcome back. Every
//! transition leaves the supervisor idle or tracking exactly the child whose
//! spawn it was told about, so no path can leak a process token.

use vstd::prelude::*;

use crate::errors::CastError;

verus! {

/// The supervisor state after a completed stop: always idle.
pub open spec fn stop_transition(child: Option<u64>) -> Option<u64> {
    None
}

/// The supervisor state after a completed start, paired with the child the
/// runner was told to terminate first: stop-before-start hands out the old
/// child, and afterwards exactly the new child is tracked.
pub open spec fn start_transition(child: Option<u64>, spawned: u64) -> (
    Option<u64>,
    Option<u64>,
) {
    (child, Some(spawned))
}

/// The result a stop reports. No child, or a child that had already exited
/// on its own (whatever its own exit status), is a success; a tracked child
/// that had to be terminated fails exactly when its reaped status was a
/// failure.
pub open spec fn stop_result_spec(
    had_child: bool,
    already_exited: bool,
    terminated_cleanly: bool,
) -> Result<(), CastError> {
    if !had_child {
        Ok(())
    } else if already_exited {
        Ok(())
    } else if terminated_cleanly {
        Ok(())
    } else {
        Err(CastError::ProcessStopFailed)
    }
}

/// Owner of the (at most one) mirroring child process token.
pub struct MirrorSupervisor {
    pub child: Option<u64>,
}

impl MirrorSupervisor {
    /// A fresh supervisor: idle.
    pub fn new() -> (s: Self)
        ensures
            s.child is None,
    {
        MirrorSupervisor { child: None }
    }

    /// Begin a stop: the supervisor becomes idle whatever happens next and
    /// hands the runner the child to terminate, if there was one. Stopping an
    /// already-idle supervisor hands out nothing.
    pub fn begin_stop(&mut self) -> (r: Option<u64>)
        ensures
            final(self).child == stop_transition(old(self).child),
            final(self).child is None,
            r == old(self).child,
    {
        let r = self.child;
        self.child = None;
        r
    }

    /// Begin a start: stop-before-start, so the old child (if any) is handed
    /// out for termination and the supervisor is idle until the spawn is
    /// confirmed.
    pub fn begin_start(&mut self) -> (r: Option<u64>)
        ensures
            final(self).child is None,
            r == old(self).child,
    {
        self.begin_stop()
    }

    /// Record the spawned child: the supervisor tracks exactly it.
    pub fn confirm_started(&mut self, child: u64)
        ensures
            final(self).child == Some(child),
    {
        self.child = Some(child);
    }

    /// Classify what the runner observed while stopping. A child that exited
    /// on its own is treated as already stopped, never as a stop failure; a
    /// failure status from a child that had to be terminated is reported, but
    /// the supervisor is already idle either way.
    pub fn stop_result(had_child: bool, already_exited: bool, terminated_cleanly: bool) -> (r:
        Result<(), CastError>)
        ensures
            r == stop_result_spec(had_child, already_exited, terminated_cleanly),
    {
        if !had_child {
            Ok(())
        } else if already_exited {
            Ok(())
        } else if terminated_cleanly {
            Ok(())
        } else {
            Err(CastError::ProcessStopFailed)
        }
    }
}

/// Stopping twice in a row never fails the second call: any stop leaves the
/// supervisor idle, and a stop from idle hands out no child and succeeds,
/// whatever the runner would have observed.
pub proof fn lemma_stop_twice_succeeds(
    child: Option<u64>,
    already_exited: bool,
    terminated_cleanly: bool,
)
    ensures
        stop_transition(child) is None,
        stop_result_spec(false, already_exited, terminated_cleanly) == Ok::<(), CastError>(()),
{
}

/// Starting twice in a row results in exactly one live child: the second
/// start hands the first start's child out for termination and afterwards
/// tracks only the second child.
pub proof fn lemma_start_twice_one_child(child: Option<u64>, first: u64, second: u64)
    ensures
        ({
            let (k1, s1) = start_transition(child, first);
            let (k2, s2) = start_transition(s1, second);
            k2 == Some(first) && s2 == Some(second)
        }),
{
}

/// A child that exited on its own is treated as already stopped: no error is
/// laundered out of its own exit status.
pub proof fn lemma_self_exit_is_not_a_stop_failure(terminated_cleanly: bool)
    ensures
        stop_result_spec(true, true, terminated_cleanly) is Ok,
{
}

} // verus!
