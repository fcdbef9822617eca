//! The daemon's lifecycle: single-instance startup and coordinated shutdown.
//!
//! Startup claims two session-scoped resources in a fixed order — first the
//! instance lock, then the control-socket path — and then completes the
//! session handshake.  Every exit path, a failed startup step as much as a
//! signalled shutdown, leaves both resources released; that is definitional
//! here, because resource ownership is derived from the phase.  The runner
//! performs the real filesystem and socket work and reports each outcome to
//! this machine, which decides how to go on and what exit code the process
//! owes.

use vstd::prelude::*;

verus! {

/// Why the daemon stopped without serving, one variant per fatal startup
/// condition.
#[derive(Clone, Copy, Debug, PartialEq, Eq, Structural)]
pub enum DaemonError {
    /// The session-scoped runtime directory is not available.
    EnvironmentError,
    /// The instance lock is already held: another daemon is running.
    AlreadyRunning,
    /// The control-socket path is occupied or unwritable.
    BindError,
    /// The session handshake never resolved the needed capabilities.
    SessionHandshakeError,
}

/// How far the daemon has come.  Resource ownership is a function of the
/// phase: the lock is held from `LockHeld` until `Stopped`, the socket
/// exists from `SocketBound` until `Stopped`.
#[derive(Clone, Copy, Debug, PartialEq, Eq, Structural)]
pub enum DaemonPhase {
    /// Just launched; nothing resolved, nothing owned.
    Boot,
    /// The runtime directory is known; no resource claimed yet.
    RuntimeDirResolved,
    /// The instance lock is held.
    LockHeld,
    /// The lock is held and the control socket is bound.
    SocketBound,
    /// Handshake complete; the accept loop is serving clients.
    Running,
    /// The process is done; both resources are released.
    Stopped,
}

/// The lifecycle state machine.  `failure` records the fatal condition on a
/// failed startup, and stays `None` across a clean run.
#[derive(Clone, Copy, Debug, PartialEq, Eq, Structural)]
pub struct DaemonLifecycle {
    /// The current phase.
    pub phase: DaemonPhase,
    /// The fatal startup condition, if the daemon stopped on one.
    pub failure: Option<DaemonError>,
}

impl DaemonLifecycle {
    /// A failure is only ever recorded once the daemon has stopped.
    pub open spec fn wf(self) -> bool {
        self.failure is Some ==> self.phase is Stopped
    }

    /// The instance lock is held in every phase after acquisition and before
    /// the stop; no stopped daemon holds it.
    pub open spec fn lock_held(self) -> bool {
        self.phase is LockHeld || self.phase is SocketBound || self.phase is Running
    }

    /// The control-socket path exists from the bind until the stop; no
    /// stopped daemon leaves it behind.
    pub open spec fn socket_exists(self) -> bool {
        self.phase is SocketBound || self.phase is Running
    }

    /// The process exit code the current outcome owes: zero only for a run
    /// without a recorded failure.
    pub open spec fn spec_exit_code(self) -> u8 {
        if self.failure is Some {
            1
        } else {
            0
        }
    }

    /// A daemon that has just been launched.
    pub fn new() -> (lc: Self)
        ensures
            lc.phase is Boot,
            lc.failure is None,
            lc.wf(),
            !lc.lock_held(),
            !lc.socket_exists(),
    {
        DaemonLifecycle { phase: DaemonPhase::Boot, failure: None }
    }

    /// Record whether the session runtime directory is available.  Its
    /// absence is fatal before anything is claimed.
    pub fn resolve_runtime_dir(&mut self, available: bool)
        requires
            old(self).wf(),
            old(self).phase is Boot,
        ensures
            final(self).wf(),
            available ==> final(self).phase is RuntimeDirResolved && final(self).failure is None,
            !available ==> final(self).phase is Stopped && final(self).failure == Some(
                DaemonError::EnvironmentError,
            ),
            !final(self).lock_held(),
            !final(self).socket_exists(),
    {
        if available {
            self.phase = DaemonPhase::RuntimeDirResolved;
        } else {
            self.phase = DaemonPhase::Stopped;
            self.failure = Some(DaemonError::EnvironmentError);
        }
    }

    /// Record the attempt on the instance lock.  If it is already held the
    /// daemon stops at once with `AlreadyRunning`, having claimed nothing:
    /// in particular, no control socket is ever created on this path.
    pub fn acquire_lock(&mut self, acquired: bool)
        requires
            old(self).wf(),
            old(self).phase is RuntimeDirResolved,
        ensures
            final(self).wf(),
            acquired ==> final(self).phase is LockHeld && final(self).lock_held() && final(self).failure is None,
            !acquired ==> final(self).phase is Stopped && final(self).failure == Some(
                DaemonError::AlreadyRunning,
            ) && !final(self).lock_held() && final(self).spec_exit_code() == 1,
            !final(self).socket_exists(),
    {
        if acquired {
            self.phase = DaemonPhase::LockHeld;
        } else {
            self.phase = DaemonPhase::Stopped;
            self.failure = Some(DaemonError::AlreadyRunning);
        }
    }

    /// Record the attempt to bind the control socket.  On failure the daemon
    /// stops with `BindError` and the lock is released with it: release runs
    /// on every exit path, also when a later startup step fails.
    pub fn bind_socket(&mut self, bound: bool)
        requires
            old(self).wf(),
            old(self).phase is LockHeld,
        ensures
            final(self).wf(),
            bound ==> final(self).phase is SocketBound && final(self).lock_held() && final(self).socket_exists() && final(self).failure is None,
            !bound ==> final(self).phase is Stopped && final(self).failure == Some(
                DaemonError::BindError,
            ) && !final(self).lock_held() && !final(self).socket_exists() && final(self).spec_exit_code() == 1,
    {
        if bound {
            self.phase = DaemonPhase::SocketBound;
        } else {
            self.phase = DaemonPhase::Stopped;
            self.failure = Some(DaemonError::BindError);
        }
    }

    /// Record the outcome of the session handshake.  Success starts the
    /// accept loop; failure stops the daemon and releases both resources.
    pub fn complete_handshake(&mut self, ready: bool)
        requires
            old(self).wf(),
            old(self).phase is SocketBound,
        ensures
            final(self).wf(),
            ready ==> final(self).phase is Running && final(self).lock_held() && final(self).socket_exists() && final(self).failure is None,
            !ready ==> final(self).phase is Stopped && final(self).failure == Some(
                DaemonError::SessionHandshakeError,
            ) && !final(self).lock_held() && !final(self).socket_exists() && final(self).spec_exit_code() == 1,
    {
        if ready {
            self.phase = DaemonPhase::Running;
        } else {
            self.phase = DaemonPhase::Stopped;
            self.failure = Some(DaemonError::SessionHandshakeError);
        }
    }

    /// Poll the cancellation flag between accept cycles.  A set flag ends the
    /// run cleanly: the lock is released, the socket path is removed, and the
    /// process owes exit code zero.  An unset flag changes nothing and the
    /// loop goes on.
    pub fn observe_cancellation(&mut self, terminate: bool) -> (stop: bool)
        requires
            old(self).wf(),
            old(self).phase is Running,
        ensures
            final(self).wf(),
            stop == terminate,
            terminate ==> final(self).phase is Stopped && !final(self).lock_held() && !final(self).socket_exists() && final(self).failure is None && final(self).spec_exit_code() == 0,
            !terminate ==> *final(self) == *old(self),
    {
        if terminate {
            self.shutdown();
        }
        terminate
    }

    /// Clean shutdown: leave the accept loop, release the instance lock and
    /// remove the control-socket path.  Both are gone before the process
    /// exits, and the exit code owed is zero.
    pub fn shutdown(&mut self)
        requires
            old(self).wf(),
            old(self).phase is Running,
        ensures
            final(self).wf(),
            final(self).phase is Stopped,
            !final(self).lock_held(),
            !final(self).socket_exists(),
            final(self).failure is None,
            final(self).spec_exit_code() == 0,
    {
        self.phase = DaemonPhase::Stopped;
    }

    /// The exit code of the finished process: zero for a clean run, one for
    /// any startup failure.
    pub fn exit_code(&self) -> (code: u8)
        requires
            self.phase is Stopped,
        ensures
            code == self.spec_exit_code(),
            code == 0 <==> self.failure is None,
    {
        if self.failure.is_some() {
            1
        } else {
            0
        }
    }

    /// The fatal startup condition this run ended on, if any.
    pub fn failure_reason(&self) -> (f: Option<DaemonError>)
        ensures
            f == self.failure,
    {
        self.failure
    }

    /// Whether the instance lock is held in the current phase.
    pub fn holds_lock(&self) -> (held: bool)
        ensures
            held == self.lock_held(),
    {
        match self.phase {
            DaemonPhase::LockHeld => true,
            DaemonPhase::SocketBound => true,
            DaemonPhase::Running => true,
            _ => false,
        }
    }

    /// Whether the control-socket path exists in the current phase.
    pub fn has_socket(&self) -> (bound: bool)
        ensures
            bound == self.socket_exists(),
    {
        match self.phase {
            DaemonPhase::SocketBound => true,
            DaemonPhase::Running => true,
            _ => false,
        }
    }
}

/// Whatever phase a stopped daemon reached first, it holds no resource: the
/// instance lock is released and the control-socket path is gone, so a later
/// instance can acquire and bind cleanly.
pub proof fn lemma_stopped_releases_resources(lc: DaemonLifecycle)
    requires
        lc.phase is Stopped,
    ensures
        !lc.lock_held(),
        !lc.socket_exists(),
{
}

} // verus!
