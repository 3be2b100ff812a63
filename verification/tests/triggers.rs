use native_host::triggers::{
    trigger_path, SequentialWrite, Trigger, TriggerError, WriteAction, WriteEvent, WriteStage,
};

#[test]
fn each_trigger_has_its_file() {
    assert_eq!(trigger_path(Trigger::FileDownload), "/home/whist/.teleport/downloaded-file");
    assert_eq!(trigger_path(Trigger::PointerLock), "/home/whist/.teleport/pointer-lock-update");
    assert_eq!(trigger_path(Trigger::DidUpdateExtension), "/home/whist/.teleport/did-update-extension");
    assert_eq!(trigger_path(Trigger::KeyboardRepeatRate), "/home/whist/.teleport/keyboard-repeat-rate-update");
    assert_eq!(
        std::path::PathBuf::from("/home/whist/.teleport").join("downloaded-file"),
        std::path::PathBuf::from(trigger_path(Trigger::FileDownload))
    );
}

/// A file that the consumer deletes when told to.
struct Slot {
    content: Option<String>,
    watched: bool,
}

fn carry_out(write: &mut SequentialWrite, slot: &mut Slot, payload: &str, consumer_acts: bool) -> Vec<WriteAction> {
    let mut asked = Vec::new();
    loop {
        let action = write.action();
        asked.push(action);
        let event = match action {
            WriteAction::RegisterWatch => {
                slot.watched = true;
                WriteEvent::WatchRegistered
            }
            WriteAction::CheckExists => {
                if slot.content.is_some() {
                    WriteEvent::Present
                } else {
                    WriteEvent::Absent
                }
            }
            WriteAction::AwaitDeletion => {
                assert!(slot.watched);
                if consumer_acts {
                    slot.content = None;
                    WriteEvent::Deleted
                } else {
                    WriteEvent::WaitFailed("interrupted".to_string())
                }
            }
            WriteAction::Write => {
                assert!(slot.content.is_none(), "a value that was not consumed would be lost");
                slot.content = Some(payload.to_string());
                WriteEvent::Written
            }
            WriteAction::Finish => return asked,
        };
        write.step(event);
    }
}

#[test]
fn sequential_write_to_an_empty_slot_writes_at_once() {
    let mut slot = Slot { content: None, watched: false };
    let mut write = SequentialWrite::begin(Trigger::FileDownload);
    let asked = carry_out(&mut write, &mut slot, "report.pdf", true);
    assert_eq!(
        asked,
        vec![WriteAction::RegisterWatch, WriteAction::CheckExists, WriteAction::Write, WriteAction::Finish]
    );
    assert_eq!(slot.content.as_deref(), Some("report.pdf"));
    assert!(matches!(write.outcome(), Some(Ok(()))));
}

#[test]
fn sequential_write_waits_for_the_consumer() {
    let mut slot = Slot { content: Some("v1".to_string()), watched: false };
    let mut write = SequentialWrite::begin(Trigger::PointerLock);
    assert_eq!(write.trigger(), Trigger::PointerLock);
    let asked = carry_out(&mut write, &mut slot, "v2", true);
    assert_eq!(
        asked,
        vec![
            WriteAction::RegisterWatch,
            WriteAction::CheckExists,
            WriteAction::AwaitDeletion,
            WriteAction::Write,
            WriteAction::Finish
        ]
    );
    assert_eq!(slot.content.as_deref(), Some("v2"));
    assert_eq!(write.stage(), WriteStage::Succeeded);
    assert!(matches!(write.outcome(), Some(Ok(()))));
}

#[test]
fn sequential_write_keeps_the_old_value_when_waiting_fails() {
    let mut slot = Slot { content: Some("v1".to_string()), watched: false };
    let mut write = SequentialWrite::begin(Trigger::PointerLock);
    let asked = carry_out(&mut write, &mut slot, "v2", false);
    assert!(!asked.contains(&WriteAction::Write));
    assert_eq!(slot.content.as_deref(), Some("v1"));
    assert!(matches!(write.outcome(), Some(Err(TriggerError::SyncFailure(text))) if text == "interrupted"));
}

#[test]
fn each_failure_has_its_error() {
    let mut write = SequentialWrite::begin(Trigger::FileDownload);
    assert_eq!(write.stage(), WriteStage::Registering);
    write.step(WriteEvent::WatchFailed("no watches left".to_string()));
    assert_eq!(write.action(), WriteAction::Finish);
    assert!(matches!(write.outcome(), Some(Err(TriggerError::SyncFailure(text))) if text == "no watches left"));

    let mut write = SequentialWrite::begin(Trigger::FileDownload);
    write.step(WriteEvent::WatchRegistered);
    write.step(WriteEvent::Absent);
    write.step(WriteEvent::WriteFailed("disk full".to_string()));
    assert!(matches!(write.outcome(), Some(Err(TriggerError::WriteFailure(text))) if text == "disk full"));

    let mut write = SequentialWrite::begin(Trigger::FileDownload);
    write.step(WriteEvent::Written);
    assert_eq!(write.stage(), WriteStage::Failed);
    write.step(WriteEvent::WatchRegistered);
    assert_eq!(write.stage(), WriteStage::Failed);
    assert!(matches!(write.outcome(), Some(Err(TriggerError::SyncFailure(text))) if text == "event out of turn"));

    let mut write = SequentialWrite::begin(Trigger::FileDownload);
    write.step(WriteEvent::WatchRegistered);
    assert!(write.outcome().is_none());
}

#[test]
fn trigger_errors_say_what_went_wrong() {
    assert_eq!(TriggerError::WriteFailure("disk full".to_string()).message(), "trigger write failed: disk full");
    assert_eq!(TriggerError::SyncFailure("no watch".to_string()).message(), "trigger wait failed: no watch");
}
