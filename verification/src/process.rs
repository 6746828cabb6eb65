//! The engine-side record of one externally spawned generator process: its
//! start time and whether it is still considered live. The host owns the
//! operating-system handle; it spawns a child exactly when the engine hands it
//! a spawn command, and kills that child exactly when the engine hands back a
//! terminated [`GeneratorProcess`]. Keeping the record and the handle in step
//! is the host's half of the bargain; everything the engine decides about the
//! record is verified here.

use vstd::prelude::*;

verus! {

/// The mathematical content of a [`GeneratorProcess`].
#[verifier::ext_equal]
pub struct ProcessView {
    pub start_ms: u64,
    pub live: bool,
}

/// One generator process instance: created at submission, terminated on
/// completion, timeout or cancellation, and never reused afterwards.
pub struct GeneratorProcess {
    start_ms: u64,
    live: bool,
}

impl View for GeneratorProcess {
    type V = ProcessView;

    closed spec fn view(&self) -> ProcessView {
        ProcessView { start_ms: self.start_ms, live: self.live }
    }
}

/// Whether a process started at `p.start_ms` has exceeded `timeout_ms` by
/// wall-clock time `now_ms`. A clock reading before the start counts as not
/// timed out.
pub open spec fn proc_timed_out(p: ProcessView, now_ms: u64, timeout_ms: u64) -> bool {
    now_ms >= p.start_ms && now_ms - p.start_ms > timeout_ms
}

/// The same process record, marked terminated.
pub open spec fn terminated_proc(p: ProcessView) -> ProcessView {
    ProcessView { start_ms: p.start_ms, live: false }
}

impl GeneratorProcess {
    /// A live process record with the given start timestamp.
    pub fn begin(start_ms: u64) -> (r: GeneratorProcess)
        ensures
            r@ == (ProcessView { start_ms, live: true }),
    {
        GeneratorProcess { start_ms, live: true }
    }

    /// Marks the process terminated. Idempotent: terminating an already
    /// terminated process changes nothing.
    pub fn terminate(&mut self)
        ensures
            final(self)@ == terminated_proc(old(self)@),
    {
        self.live = false;
    }

    /// Whether the process is still considered live.
    pub fn is_live(&self) -> (r: bool)
        ensures
            r == self@.live,
    {
        self.live
    }

    /// The wall-clock timestamp recorded when the process was started.
    pub fn start_ms(&self) -> (r: u64)
        ensures
            r == self@.start_ms,
    {
        self.start_ms
    }

    /// Whether the process has run longer than `timeout_ms` at time `now_ms`.
    pub fn timed_out(&self, now_ms: u64, timeout_ms: u64) -> (r: bool)
        ensures
            r == proc_timed_out(self@, now_ms, timeout_ms),
    {
        now_ms >= self.start_ms && now_ms - self.start_ms > timeout_ms
    }
}

/// Termination is idempotent: a second `terminate` leaves the record exactly
/// as the first did, so no code path can revive a terminated process.
pub proof fn lemma_terminate_idempotent(p: ProcessView)
    ensures
        terminated_proc(terminated_proc(p)) == terminated_proc(p),
{
}

} // verus!
