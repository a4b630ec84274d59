use vstd::prelude::*;

verus! {

/// Single-slot state of the sidecar server controller: at most one
/// tracked child process and the port it was bound to.
///
/// The caller guards one instance with its own lock (never held across
/// the spawn, kill or wait syscalls themselves) and feeds the outcome of
/// every OS call back in through the methods below. The shutdown hook
/// runs [`Self::stop`] once when the application window is destroyed.
pub struct OpenCodeServerState {
    /// Pid of the tracked child process, if one is believed alive.
    pub process: Option<u32>,
    /// Port the tracked process was started on.
    pub port: Option<u16>,
}

/// What the caller must do to honour a `start` request.
pub enum StartPlan {
    /// The server already runs on the requested port: spawn nothing.
    AlreadyRunning,
    /// Spawn a fresh process. If `kill_first` holds a pid, kill that
    /// process and wait on it first (a port change supersedes, never
    /// coexists; waiting avoids a dangling zombie).
    Spawn { kill_first: Option<u32> },
}

/// The plan a `start` request resolves to, given whether the tracked
/// process (if any) is still alive.
pub open spec fn start_plan_spec(s: OpenCodeServerState, port: u16, alive: bool) -> StartPlan {
    if s.process is Some && alive {
        if s.port == Some(port) {
            StartPlan::AlreadyRunning
        } else {
            StartPlan::Spawn { kill_first: s.process }
        }
    } else {
        StartPlan::Spawn { kill_first: None }
    }
}

/// The slot contents right after the `start` decision (before any new
/// spawn is recorded): unchanged for an idempotent start, cleared in
/// every other case.
pub open spec fn start_state_spec(
    s: OpenCodeServerState,
    port: u16,
    alive: bool,
) -> OpenCodeServerState {
    if s.process is Some && alive && s.port == Some(port) {
        s
    } else {
        OpenCodeServerState { process: None, port: None }
    }
}

impl OpenCodeServerState {
    /// The slot invariant: the process and its port are set and cleared
    /// together — never one without the other.
    pub open spec fn wf(self) -> bool {
        self.process is Some <==> self.port is Some
    }

    /// Resolve a `start` request. `alive` is the outcome of the
    /// caller's non-blocking poll of the tracked process (any value is
    /// ignored when nothing is tracked): an exited process is lazily
    /// cleared first. Running on the same port is a no-op; a different
    /// port supersedes the old process; otherwise the slot is empty and
    /// a plain spawn is due. After a `Spawn` plan succeeds the caller
    /// records the new process with [`Self::record_started`]; a failed
    /// spawn leaves the slot empty.
    pub fn plan_start(&mut self, port: u16, alive: bool) -> (plan: StartPlan)
        requires
            old(self).wf(),
        ensures
            final(self).wf(),
            plan == start_plan_spec(*old(self), port, alive),
            *final(self) == start_state_spec(*old(self), port, alive),
    {
        let same_port = match self.port {
            Some(p) => p == port,
            None => false,
        };
        if self.process.is_some() && alive {
            if same_port {
                StartPlan::AlreadyRunning
            } else {
                let kill_first = self.process;
                self.process = None;
                self.port = None;
                StartPlan::Spawn { kill_first }
            }
        } else {
            self.process = None;
            self.port = None;
            StartPlan::Spawn { kill_first: None }
        }
    }

    /// Record a successful spawn: the slot, which the `start` decision
    /// left empty, now tracks the new process and its port together.
    pub fn record_started(&mut self, pid: u32, port: u16)
        requires
            old(self).process is None,
        ensures
            final(self).wf(),
            final(self).process == Some(pid),
            final(self).port == Some(port),
    {
        self.process = Some(pid);
        self.port = Some(port);
    }

    /// The stop decision, also run by the shutdown hook: clear the slot
    /// and hand back the pid the caller must kill and wait on, if any.
    /// Always succeeds; stopping an empty slot is a no-op.
    pub fn stop(&mut self) -> (to_kill: Option<u32>)
        requires
            old(self).wf(),
        ensures
            final(self).wf(),
            to_kill == old(self).process,
            final(self).process is None,
            final(self).port is None,
    {
        let to_kill = self.process;
        self.process = None;
        self.port = None;
        to_kill
    }

    /// The liveness query. `alive` is the outcome of the caller's
    /// non-blocking poll (ignored when nothing is tracked): a process
    /// that exited is lazily cleared as a side effect and the query
    /// answers false; a live tracked process answers true and changes
    /// nothing; an empty slot answers false.
    pub fn note_poll(&mut self, alive: bool) -> (managed: bool)
        requires
            old(self).wf(),
        ensures
            final(self).wf(),
            managed == (old(self).process is Some && alive),
            managed ==> *final(self) == *old(self),
            !managed ==> final(self).process is None && final(self).port is None,
    {
        if self.process.is_some() && alive {
            true
        } else {
            self.process = None;
            self.port = None;
            false
        }
    }
}

impl Default for OpenCodeServerState {
    /// The controller starts with an empty slot: no process, no port.
    fn default() -> (r: Self)
        ensures
            r.process is None,
            r.port is None,
    {
        OpenCodeServerState { process: None, port: None }
    }
}

/// Starting the sidecar on the port a live server already runs on is
/// idempotent: the plan spawns nothing, kills nothing, and the same pid
/// stays tracked after the call.
pub proof fn lemma_start_same_port_idempotent(s: OpenCodeServerState, port: u16)
    requires
        s.wf(),
        s.process is Some,
        s.port == Some(port),
    ensures
        start_plan_spec(s, port, true) == StartPlan::AlreadyRunning,
        start_state_spec(s, port, true) == s,
{
}

/// Starting the sidecar on a different port always supersedes the live
/// process: the plan orders the old pid killed (and waited on) before
/// the new spawn, the old pid is no longer tracked, and once the new
/// spawn is recorded the slot tracks the new process alone.
pub proof fn lemma_start_new_port_replaces(s: OpenCodeServerState, old_pid: u32, port: u16)
    requires
        s.wf(),
        s.process == Some(old_pid),
        s.port != Some(port),
    ensures
        start_plan_spec(s, port, true) == (StartPlan::Spawn { kill_first: Some(old_pid) }),
        start_state_spec(s, port, true).process is None,
        start_state_spec(s, port, true).port is None,
{
}

} // verus!
