//! The failure taxonomy of the picker core.

use vstd::prelude::*;

verus! {

/// Everything that can go wrong in the selector-process adapter or the
/// clipboard-persistence daemon.
///
/// - `SpawnFailed`: the external selector program could not be started
///   (not found / not executable); fatal, reported to the caller.
/// - `EmptySelection`: output capture was requested and the external
///   program produced no output; aborts the selection attempt.
/// - `ProcessDuplicationFailed`: the process-duplication primitive failed
///   before any detachment happened; fatal, surfaced to the caller.
/// - `ClipboardUnavailable`: the detached persister could not acquire the
///   clipboard interface; fatal to the persister path only.
#[derive(Clone, Copy, Debug, PartialEq, Eq, Structural)]
pub enum PickError {
    SpawnFailed,
    EmptySelection,
    ProcessDuplicationFailed,
    ClipboardUnavailable,
}

impl PickError {
    /// A diagnostic message for this failure, for the unverified shell to
    /// print.
    pub fn message(&self) -> (r: &'static str)
        ensures
            *self is SpawnFailed ==> r@ == "could not spawn the selector program"@,
            *self is EmptySelection ==> r@ == "the selector program produced no output"@,
            *self is ProcessDuplicationFailed ==> r@ == "could not detach the clipboard owner process"@,
            *self is ClipboardUnavailable ==> r@ == "could not acquire the clipboard"@,
    {
        match self {
            PickError::SpawnFailed => "could not spawn the selector program",
            PickError::EmptySelection => "the selector program produced no output",
            PickError::ProcessDuplicationFailed => "could not detach the clipboard owner process",
            PickError::ClipboardUnavailable => "could not acquire the clipboard",
        }
    }
}

} // verus!
