use emoji_picker::errors::PickError;

#[test]
fn every_failure_has_its_own_message() {
    assert_eq!(PickError::SpawnFailed.message(), "could not spawn the selector program");
    assert_eq!(PickError::EmptySelection.message(), "the selector program produced no output");
    assert_eq!(
        PickError::ProcessDuplicationFailed.message(),
        "could not detach the clipboard owner process"
    );
    assert_eq!(PickError::ClipboardUnavailable.message(), "could not acquire the clipboard");
}

#[test]
fn failures_compare_by_variant() {
    assert_eq!(PickError::SpawnFailed, PickError::SpawnFailed);
    assert_ne!(PickError::SpawnFailed, PickError::EmptySelection);
}
