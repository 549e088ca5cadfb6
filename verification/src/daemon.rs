//! The clipboard-persistence daemon.
//!
//! A selected value must stay pasteable after the invoking process exits.
//! On a clipboard model that needs a live owner process, the only way to
//! outlive the parent is to duplicate the process: one continuation (the
//! originator) waits a short fixed grace interval and returns to the normal
//! exit path, the other (the persister) claims the clipboard, sets the
//! value, and blocks until another application takes the clipboard over,
//! then exits.
//!
//! The duplication, the sleep and the clipboard calls are the unverified
//! shell's work. This module decides: [`plan_after_fork`] assigns each
//! continuation its job, and [`Persister`] is the persister's lifecycle
//! machine, whose contracts pin that the served value is exactly the
//! selected value and that the persister terminates once superseded.

use vstd::prelude::*;
use crate::errors::PickError;

verus! {

/// Milliseconds the originator path waits before returning: long enough for
/// the persister to establish clipboard ownership.
pub const GRACE_WAIT_MILLIS: u64 = 100;

/// The outcome of the process-duplication primitive, as seen by the
/// continuation that is running.
#[derive(Clone, Copy, Debug, PartialEq, Eq, Structural)]
pub enum ForkOutcome {
    /// This continuation is the original process.
    Originator,
    /// This continuation is the detached duplicate.
    Persister,
    /// The primitive failed; no duplicate exists.
    Failed,
}

/// The job a continuation must perform after process duplication.
pub enum DaemonStep {
    /// Sleep `millis` milliseconds, then return to the normal exit path.
    GraceWait { millis: u64 },
    /// Claim the system clipboard, set its content to `value`, and hold
    /// ownership until another application takes it over.
    ServeClipboard { value: String },
    /// Report the failure to the caller; nothing was detached.
    Fail { error: PickError },
}

/// Assign each continuation its job: the originator waits exactly the fixed
/// grace interval and returns; the persister serves exactly the selected
/// value; a failed duplication is surfaced as `ProcessDuplicationFailed`.
pub fn plan_after_fork(outcome: ForkOutcome, value: String) -> (r: DaemonStep)
    ensures
        outcome is Originator ==> r == (DaemonStep::GraceWait { millis: GRACE_WAIT_MILLIS }),
        outcome is Persister ==> (r matches DaemonStep::ServeClipboard { value: v } && v == value),
        outcome is Failed ==> r == (DaemonStep::Fail {
            error: PickError::ProcessDuplicationFailed,
        }),
{
    match outcome {
        ForkOutcome::Originator => DaemonStep::GraceWait { millis: GRACE_WAIT_MILLIS },
        ForkOutcome::Persister => DaemonStep::ServeClipboard { value },
        ForkOutcome::Failed => DaemonStep::Fail { error: PickError::ProcessDuplicationFailed },
    }
}

/// Where the persister continuation stands in its life.
#[derive(Clone, Copy, Debug)]
pub enum PersisterPhase {
    /// Trying to acquire the clipboard interface.
    Claiming,
    /// Owning the clipboard, serving the value, waiting to be superseded.
    Holding,
    /// Another application took the clipboard over; the persister is done
    /// and exits.
    Exited,
    /// The clipboard interface could not be acquired; the persister reports
    /// `ClipboardUnavailable` on its diagnostic output and dies. The
    /// originator's success is unaffected: it returned independently.
    Aborted,
}

/// What the persister observes from the platform clipboard.
#[derive(Clone, Copy, Debug)]
pub enum ClipboardEvent {
    /// The clipboard interface was acquired and the value is set.
    Acquired,
    /// The clipboard interface could not be acquired.
    Unavailable,
    /// Another application set or claimed the clipboard; ownership is gone.
    Superseded,
}

/// The persister's lifecycle machine.
pub struct Persister {
    pub value: String,
    pub phase: PersisterPhase,
}

impl Persister {
    /// A fresh persister that must serve `value`.
    pub fn new(value: String) -> (r: Persister)
        ensures
            r.value == value,
            r.phase is Claiming,
    {
        Persister { value, phase: PersisterPhase::Claiming }
    }

    /// Which events the persister's life admits in each phase.
    pub open spec fn expects(self, e: ClipboardEvent) -> bool {
        match (self.phase, e) {
            (PersisterPhase::Claiming, ClipboardEvent::Acquired) => true,
            (PersisterPhase::Claiming, ClipboardEvent::Unavailable) => true,
            (PersisterPhase::Holding, ClipboardEvent::Superseded) => true,
            _ => false,
        }
    }

    /// The transition relation: acquiring the clipboard starts the hold,
    /// failing to acquire it aborts, and losing ownership ends the life.
    /// The served value never changes. An event the life does not admit
    /// leaves the persister unchanged.
    pub open spec fn spec_step(self, e: ClipboardEvent) -> Persister {
        let phase = match (self.phase, e) {
            (PersisterPhase::Claiming, ClipboardEvent::Acquired) => PersisterPhase::Holding,
            (PersisterPhase::Claiming, ClipboardEvent::Unavailable) => PersisterPhase::Aborted,
            (PersisterPhase::Holding, ClipboardEvent::Superseded) => PersisterPhase::Exited,
            _ => self.phase,
        };
        Persister { value: self.value, phase }
    }

    /// Consume one clipboard observation.
    pub fn step(&mut self, e: ClipboardEvent)
        requires
            old(self).expects(e),
        ensures
            *final(self) == old(self).spec_step(e),
            final(self).value == old(self).value,
    {
        match (self.phase, e) {
            (PersisterPhase::Claiming, ClipboardEvent::Acquired) => {
                self.phase = PersisterPhase::Holding;
            },
            (PersisterPhase::Claiming, ClipboardEvent::Unavailable) => {
                self.phase = PersisterPhase::Aborted;
            },
            (PersisterPhase::Holding, ClipboardEvent::Superseded) => {
                self.phase = PersisterPhase::Exited;
            },
            _ => {
            },
        }
    }
}

/// Once another process sets or claims the clipboard, the holding persister
/// terminates: no process is leaked.
pub proof fn lemma_persister_exits_when_superseded(p: Persister)
    requires
        p.phase is Holding,
    ensures
        p.spec_step(ClipboardEvent::Superseded).phase is Exited,
        p.spec_step(ClipboardEvent::Superseded).value == p.value,
{
}

/// However the persister's life runs, the value it serves is the value it
/// was created with: what a paste observes during the hold is exactly the
/// selected value.
pub proof fn lemma_persister_value_constant(p: Persister, e: ClipboardEvent)
    ensures
        p.spec_step(e).value == p.value,
{
}

} // verus!
