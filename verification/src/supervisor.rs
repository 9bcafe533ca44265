//! The process supervisor: at most one live worker handle, deterministic
//! start/stop transitions, and state that is consistent whatever the OS
//! reports back.
//!
//! The supervisor holds the decision half of each operation. The host makes
//! the OS calls (spawn, kill, wait) between the two halves and feeds the
//! outcome back in as a plain value:
//! - `start` is [`Supervisor::plan_start`] (permission check and launch
//!   command), the spawn, then [`Supervisor::record_spawn`];
//! - `stop` is [`Supervisor::begin_stop`] (clears the slot first and hands
//!   the handle out), the kill-and-reap, then [`Supervisor::stop_result`].

use vstd::prelude::*;
use crate::errors::{Error, SpecError};
use crate::launch::{LaunchPlan, default_interpreter, spec_interpreter, spec_resolved_entry};

verus! {

/// The OS-level identity of a spawned worker (PID-equivalent).
#[derive(Debug, Clone, Copy, PartialEq, Eq, Structural)]
pub struct ProcessHandle {
    pub pid: u32,
}

/// Owns zero or one worker handle. `None` means no worker is running; `Some`
/// means exactly one worker is running and its handle is held here.
pub struct Supervisor {
    handle: Option<ProcessHandle>,
}

impl View for Supervisor {
    type V = Option<u32>;

    closed spec fn view(&self) -> Option<u32> {
        match self.handle {
            Some(h) => Some(h.pid),
            None => None,
        }
    }
}

/// A start may proceed exactly when no worker handle is held.
pub open spec fn start_permitted(state: Option<u32>) -> bool {
    state is None
}

/// The abstract value of a spawn outcome: the new PID, or the OS's refusal
/// message.
pub open spec fn spawn_view(outcome: Result<u32, String>) -> Result<u32, Seq<char>> {
    match outcome {
        Ok(pid) => Ok(pid),
        Err(m) => Err(m@),
    }
}

/// The abstract value of a termination-signal outcome.
pub open spec fn signal_view(outcome: Result<(), String>) -> Result<(), Seq<char>> {
    match outcome {
        Ok(u) => Ok(u),
        Err(m) => Err(m@),
    }
}

/// The abstract value of an operation's result.
pub open spec fn result_view(r: Result<(), Error>) -> Result<(), SpecError> {
    match r {
        Ok(u) => Ok(u),
        Err(e) => Err(e@),
    }
}

/// The whole `start` transition, given the spawn outcome: rejected outright
/// while a worker is held; otherwise the spawned PID is stored, or a refusal
/// becomes `SpawnFailed` and the supervisor stays idle.
pub open spec fn spec_start(state: Option<u32>, spawn: Result<u32, Seq<char>>) -> (Option<
    u32,
>, Result<(), SpecError>) {
    if state is Some {
        (state, Err(SpecError::AlreadyRunning))
    } else {
        match spawn {
            Ok(pid) => (Some(pid), Ok(())),
            Err(m) => (None, Err(SpecError::SpawnFailed(m))),
        }
    }
}

/// The whole `stop` transition, given the termination-signal outcome: a
/// no-op success when idle; otherwise the handle is cleared first, and a
/// failed signal becomes `TerminationFailed`. The state after a stop is
/// `None` in every case.
pub open spec fn spec_stop(state: Option<u32>, signal: Result<(), Seq<char>>) -> (Option<
    u32,
>, Result<(), SpecError>) {
    match state {
        None => (None, Ok(())),
        Some(_) => match signal {
            Ok(_) => (None, Ok(())),
            Err(m) => (None, Err(SpecError::TerminationFailed(m))),
        },
    }
}

/// At most one worker ever exists: after a start that stored a worker
/// handle, an immediately following start is rejected with `AlreadyRunning`
/// and keeps exactly the handle the first start stored.
pub proof fn lemma_second_start_rejected(pid: u32, second: Result<u32, Seq<char>>)
    ensures
        ({
            let after_first = spec_start(None, Ok(pid));
            let after_second = spec_start(after_first.0, second);
            &&& after_first.0 == Some(pid)
            &&& after_first.1 == Ok::<(), SpecError>(())
            &&& after_second.0 == Some(pid)
            &&& after_second.1 == Err::<(), SpecError>(SpecError::AlreadyRunning)
        }),
{
}

/// Stopping with no active worker is a no-op success and leaves the slot
/// empty.
pub proof fn lemma_stop_when_idle(signal: Result<(), Seq<char>>)
    ensures
        spec_stop(None, signal) == (None::<u32>, Ok::<(), SpecError>(())),
{
}

/// A stop always leaves the slot empty — even when the termination signal
/// fails, the handle has already been cleared — so a second stop in a row is
/// a no-op success: stop is idempotent.
pub proof fn lemma_stop_idempotent(
    state: Option<u32>,
    first: Result<(), Seq<char>>,
    second: Result<(), Seq<char>>,
)
    ensures
        spec_stop(state, first).0 is None,
        spec_stop(spec_stop(state, first).0, second) == (None::<u32>, Ok::<(), SpecError>(())),
{
}

/// A failed spawn is not fatal and burns nothing: the supervisor stays idle,
/// the refusal is reported as `SpawnFailed` with the OS's message, and a
/// later start behaves exactly as a start from a fresh supervisor.
pub proof fn lemma_failed_start_permits_retry(m: Seq<char>, second: Result<u32, Seq<char>>)
    ensures
        spec_start(None, Err(m)).0 is None,
        spec_start(None, Err(m)).1 == Err::<(), SpecError>(SpecError::SpawnFailed(m)),
        spec_start(spec_start(None, Err(m)).0, second) == spec_start(None, second),
{
}

impl Supervisor {
    /// A fresh supervisor holds no worker handle.
    pub fn new() -> (s: Self)
        ensures
            s@ is None,
    {
        Supervisor { handle: None }
    }

    /// Whether a worker handle is currently held.
    pub open spec fn is_running(&self) -> bool {
        self@ is Some
    }

    /// Whether the supervisor is idle (no worker handle held).
    pub open spec fn is_idle(&self) -> bool {
        self@ is None
    }

    /// The PID of the running worker, if one is held.
    pub fn current_pid(&self) -> (r: Option<u32>)
        ensures
            r == self@,
    {
        match &self.handle {
            Some(h) => Some(h.pid),
            None => None,
        }
    }

    /// The first half of `start`: refuses with `AlreadyRunning` while a
    /// worker handle is held (the handle is never replaced silently);
    /// otherwise hands back the launch plan for the host to spawn.
    pub fn plan_start(&self, overriding: Option<String>, entry: &str, base: &str) -> (r: Result<
        LaunchPlan,
        Error,
    >)
        ensures
            r is Ok <==> start_permitted(self@),
            r matches Err(e) ==> e@ == SpecError::AlreadyRunning,
            r matches Ok(p) ==> p.interpreter@ == spec_interpreter(overriding.deep_view())
                && p.entry@ == spec_resolved_entry(entry@, base@),
    {
        if self.handle.is_some() {
            Err(Error::AlreadyRunning)
        } else {
            Ok(LaunchPlan::new(overriding, entry, base))
        }
    }

    /// The second half of `start`: records how the spawn went. On success
    /// the new handle is stored; on refusal the supervisor stays idle and
    /// the refusal is reported as `SpawnFailed`, which is not fatal to the
    /// host.
    pub fn record_spawn(&mut self, outcome: Result<u32, String>) -> (r: Result<(), Error>)
        requires
            old(self).is_idle(),
        ensures
            final(self)@ == spec_start(old(self)@, spawn_view(outcome)).0,
            result_view(r) == spec_start(old(self)@, spawn_view(outcome)).1,
    {
        match outcome {
            Ok(pid) => {
                self.handle = Some(ProcessHandle { pid });
                Ok(())
            },
            Err(m) => Err(Error::SpawnFailed(m)),
        }
    }

    /// The first half of `stop`: takes the handle out, clearing the stored
    /// state before anything else, so the single-instance invariant holds
    /// even if a teardown path runs concurrently.
    pub fn begin_stop(&mut self) -> (h: Option<ProcessHandle>)
        ensures
            final(self)@ is None,
            match h {
                Some(ph) => old(self)@ == Some(ph.pid),
                None => old(self)@ is None,
            },
    {
        self.handle.take()
    }

    /// The second half of `stop`: the result owed to the caller, from what
    /// was taken and how the termination signal went. With no worker taken,
    /// stop is a no-op success whatever `signal` holds.
    pub fn stop_result(taken: &Option<ProcessHandle>, signal: Result<(), String>) -> (r: Result<
        (),
        Error,
    >)
        ensures
            result_view(r) == spec_stop(
                match taken {
                    Some(ph) => Some(ph.pid),
                    None => None,
                },
                signal_view(signal),
            ).1,
    {
        match taken {
            None => Ok(()),
            Some(_) => match signal {
                Ok(_) => Ok(()),
                Err(m) => Err(Error::TerminationFailed(m)),
            },
        }
    }
}

} // verus!
