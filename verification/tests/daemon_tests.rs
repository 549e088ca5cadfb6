use emoji_picker::daemon::ClipboardEvent;
use emoji_picker::daemon::DaemonStep;
use emoji_picker::daemon::ForkOutcome;
use emoji_picker::daemon::GRACE_WAIT_MILLIS;
use emoji_picker::daemon::Persister;
use emoji_picker::daemon::PersisterPhase;
use emoji_picker::daemon::plan_after_fork;
use emoji_picker::errors::PickError;

#[test]
fn originator_waits_the_fixed_grace_interval() {
    let step = plan_after_fork(ForkOutcome::Originator, "😀".to_string());
    match step {
        DaemonStep::GraceWait { millis } => assert_eq!(millis, GRACE_WAIT_MILLIS),
        _ => panic!("the originator must wait, then return"),
    }
    assert_eq!(GRACE_WAIT_MILLIS, 100);
}

#[test]
fn persister_serves_exactly_the_selected_value() {
    let step = plan_after_fork(ForkOutcome::Persister, "😀".to_string());
    match step {
        DaemonStep::ServeClipboard { value } => assert_eq!(value, "😀"),
        _ => panic!("the persister must serve the clipboard"),
    }
}

#[test]
fn failed_duplication_is_surfaced() {
    let step = plan_after_fork(ForkOutcome::Failed, "😀".to_string());
    match step {
        DaemonStep::Fail { error } => assert_eq!(error, PickError::ProcessDuplicationFailed),
        _ => panic!("a failed duplication must be surfaced"),
    }
}

#[test]
fn persister_exits_once_superseded() {
    let mut persister = Persister::new("😀".to_string());
    assert!(matches!(persister.phase, PersisterPhase::Claiming));
    persister.step(ClipboardEvent::Acquired);
    assert!(matches!(persister.phase, PersisterPhase::Holding));
    assert_eq!(persister.value, "😀");
    persister.step(ClipboardEvent::Superseded);
    assert!(matches!(persister.phase, PersisterPhase::Exited));
    assert_eq!(persister.value, "😀");
}

#[test]
fn unavailable_clipboard_aborts_the_persister_only() {
    let mut persister = Persister::new("V".to_string());
    persister.step(ClipboardEvent::Unavailable);
    assert!(matches!(persister.phase, PersisterPhase::Aborted));
    assert_eq!(PickError::ClipboardUnavailable.message(), "could not acquire the clipboard");
}
