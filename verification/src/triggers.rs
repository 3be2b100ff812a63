//! Trigger files: single-slot signals that an external consumer deletes once
//! it has seen them.

use vstd::prelude::*;
use vstd::string::StringExecFns;

verus! {

/// The signals that the host passes on through the file system.
#[derive(Debug, Clone, Copy, PartialEq, Eq, Structural)]
pub enum Trigger {
    FileDownload,
    PointerLock,
    DidUpdateExtension,
    KeyboardRepeatRate,
}

/// Directory that holds every trigger file.
pub open spec fn trigger_folder() -> Seq<char> {
    "/home/whist/.teleport"@
}

/// Name of the file that carries `trigger`, inside the trigger folder.
pub open spec fn trigger_file_name(trigger: Trigger) -> Seq<char> {
    match trigger {
        Trigger::FileDownload => "downloaded-file"@,
        Trigger::PointerLock => "pointer-lock-update"@,
        Trigger::DidUpdateExtension => "did-update-extension"@,
        Trigger::KeyboardRepeatRate => "keyboard-repeat-rate-update"@,
    }
}

/// Full path of the file that carries `trigger`: folder, a slash, file name.
pub open spec fn trigger_path_spec(trigger: Trigger) -> Seq<char> {
    trigger_folder() + seq!['/'] + trigger_file_name(trigger)
}

/// Path of the file behind `trigger`.
pub fn trigger_path(trigger: Trigger) -> (path: &'static str)
    ensures
        path@ == trigger_path_spec(trigger),
{
    proof {
        reveal_strlit("/home/whist/.teleport");
        reveal_strlit("downloaded-file");
        reveal_strlit("pointer-lock-update");
        reveal_strlit("did-update-extension");
        reveal_strlit("keyboard-repeat-rate-update");
        reveal_strlit("/home/whist/.teleport/downloaded-file");
        reveal_strlit("/home/whist/.teleport/pointer-lock-update");
        reveal_strlit("/home/whist/.teleport/did-update-extension");
        reveal_strlit("/home/whist/.teleport/keyboard-repeat-rate-update");
    }
    match trigger {
        Trigger::FileDownload => "/home/whist/.teleport/downloaded-file",
        Trigger::PointerLock => "/home/whist/.teleport/pointer-lock-update",
        Trigger::DidUpdateExtension => "/home/whist/.teleport/did-update-extension",
        Trigger::KeyboardRepeatRate => "/home/whist/.teleport/keyboard-repeat-rate-update",
    }
}

/// Why a trigger could not be written.
#[derive(Debug)]
pub enum TriggerError {
    /// The file could not be created or written; the text says why.
    WriteFailure(String),
    /// The notification facility could not be set up or watched, or waiting
    /// for it failed; the text says why.
    SyncFailure(String),
}

impl TriggerError {
    /// The error in words: what went wrong, then the text that came with it.
    pub fn message(&self) -> (text: String)
        ensures
            text@ == match self {
                TriggerError::WriteFailure(reason) => "trigger write failed: "@ + reason@,
                TriggerError::SyncFailure(reason) => "trigger wait failed: "@ + reason@,
            },
    {
        match self {
            TriggerError::WriteFailure(reason) => String::from_str("trigger write failed: ").concat(reason.as_str()),
            TriggerError::SyncFailure(reason) => String::from_str("trigger wait failed: ").concat(reason.as_str()),
        }
    }
}

/// What the host is asked to do next for a sequential write.
#[derive(Debug, Clone, Copy, PartialEq, Eq, Structural)]
pub enum WriteAction {
    /// Ask to be told when the file is deleted. A file that is not there is
    /// no failure.
    RegisterWatch,
    /// Look whether the file is there.
    CheckExists,
    /// Block until a deletion of the file is reported.
    AwaitDeletion,
    /// Create the file, or overwrite it, with the payload.
    Write,
    /// Nothing: the write is over.
    Finish,
}

/// What the host reports back after an action.
#[derive(Debug)]
pub enum WriteEvent {
    /// The watch stands, or there was no file to watch.
    WatchRegistered,
    /// The notification facility failed to start or to watch.
    WatchFailed(String),
    /// The file is there.
    Present,
    /// The file is not there.
    Absent,
    /// A deletion of the file was reported.
    Deleted,
    /// Waiting for the deletion failed.
    WaitFailed(String),
    /// The payload is in the file.
    Written,
    /// The file could not be created or written.
    WriteFailed(String),
}

/// How far a sequential write has come.
#[derive(Debug, Clone, Copy, PartialEq, Eq, Structural)]
pub enum WriteStage {
    /// The watch was asked for.
    Registering,
    /// The watch stands; the file is being looked for.
    Checking,
    /// The file was there; its deletion is awaited.
    Waiting,
    /// The file is known to be gone; the payload is being written.
    Writing,
    /// The payload is in the file.
    Succeeded,
    /// The write was given up.
    Failed,
}

/// What each stage asks of the host.
pub open spec fn action_of(stage: WriteStage) -> WriteAction {
    match stage {
        WriteStage::Registering => WriteAction::RegisterWatch,
        WriteStage::Checking => WriteAction::CheckExists,
        WriteStage::Waiting => WriteAction::AwaitDeletion,
        WriteStage::Writing => WriteAction::Write,
        WriteStage::Succeeded => WriteAction::Finish,
        WriteStage::Failed => WriteAction::Finish,
    }
}

/// The kinds of event, without the texts that failures carry.
#[derive(Debug, Clone, Copy, PartialEq, Eq, Structural)]
pub enum WriteEventKind {
    WatchRegistered,
    WatchFailed,
    Present,
    Absent,
    Deleted,
    WaitFailed,
    Written,
    WriteFailed,
}

impl View for WriteEvent {
    type V = WriteEventKind;

    open spec fn view(&self) -> WriteEventKind {
        match self {
            WriteEvent::WatchRegistered => WriteEventKind::WatchRegistered,
            WriteEvent::WatchFailed(_) => WriteEventKind::WatchFailed,
            WriteEvent::Present => WriteEventKind::Present,
            WriteEvent::Absent => WriteEventKind::Absent,
            WriteEvent::Deleted => WriteEventKind::Deleted,
            WriteEvent::WaitFailed(_) => WriteEventKind::WaitFailed,
            WriteEvent::Written => WriteEventKind::Written,
            WriteEvent::WriteFailed(_) => WriteEventKind::WriteFailed,
        }
    }
}

/// The stage that follows `stage` on `event`. The watch comes first, then
/// the look at the file, so that a deletion between the two is not missed;
/// the payload is written only once the file was seen to be gone. An event
/// that answers no question of the stage ends the write as failed.
pub open spec fn next_stage(stage: WriteStage, event: WriteEventKind) -> WriteStage {
    match (stage, event) {
        (WriteStage::Registering, WriteEventKind::WatchRegistered) => WriteStage::Checking,
        (WriteStage::Checking, WriteEventKind::Present) => WriteStage::Waiting,
        (WriteStage::Checking, WriteEventKind::Absent) => WriteStage::Writing,
        (WriteStage::Waiting, WriteEventKind::Deleted) => WriteStage::Writing,
        (WriteStage::Writing, WriteEventKind::Written) => WriteStage::Succeeded,
        _ => WriteStage::Failed,
    }
}

/// The failure that an event brings at a stage, if it brings one: the
/// host's own failure with its text, or an event that the stage did not ask
/// for.
pub open spec fn failure_of(stage: WriteStage, event: WriteEvent) -> Option<TriggerError> {
    match (stage, event) {
        (WriteStage::Registering, WriteEvent::WatchFailed(text)) => Some(TriggerError::SyncFailure(text)),
        (WriteStage::Waiting, WriteEvent::WaitFailed(text)) => Some(TriggerError::SyncFailure(text)),
        (WriteStage::Writing, WriteEvent::WriteFailed(text)) => Some(TriggerError::WriteFailure(text)),
        _ => None,
    }
}

/// One write to a trigger that waits until the value before it was consumed.
#[derive(Debug)]
pub struct SequentialWrite {
    trigger: Trigger,
    stage: WriteStage,
    failure: Option<TriggerError>,
}

impl SequentialWrite {
    #[verifier::type_invariant]
    spec fn failed_with_reason(self) -> bool {
        (self.stage == WriteStage::Failed) == self.failure.is_some()
    }

    /// The trigger that is written to.
    pub closed spec fn target(self) -> Trigger {
        self.trigger
    }

    /// The stage that the write has reached.
    pub closed spec fn reached(self) -> WriteStage {
        self.stage
    }

    /// Why the write failed, once it has.
    pub closed spec fn reason(self) -> Option<TriggerError> {
        self.failure
    }

    /// Begins a sequential write to `trigger`: the first thing asked of the
    /// host is the watch.
    pub fn begin(trigger: Trigger) -> (write: SequentialWrite)
        ensures
            write.target() == trigger,
            write.reached() == WriteStage::Registering,
            write.reason().is_none(),
    {
        SequentialWrite { trigger, stage: WriteStage::Registering, failure: None }
    }

    /// The trigger that is written to.
    pub fn trigger(&self) -> (trigger: Trigger)
        ensures
            trigger == self.target(),
    {
        self.trigger
    }

    /// The stage that the write has reached.
    pub fn stage(&self) -> (stage: WriteStage)
        ensures
            stage == self.reached(),
    {
        self.stage
    }

    /// What the host is to do now.
    pub fn action(&self) -> (action: WriteAction)
        ensures
            action == action_of(self.reached()),
    {
        match self.stage {
            WriteStage::Registering => WriteAction::RegisterWatch,
            WriteStage::Checking => WriteAction::CheckExists,
            WriteStage::Waiting => WriteAction::AwaitDeletion,
            WriteStage::Writing => WriteAction::Write,
            WriteStage::Succeeded => WriteAction::Finish,
            WriteStage::Failed => WriteAction::Finish,
        }
    }

    /// Takes in what the host reports and moves to the next stage. A failure
    /// to watch or to wait is a `SyncFailure`, a failure to write a
    /// `WriteFailure`, each with the text that the host gave. An event that
    /// the stage did not ask for is a `SyncFailure` too. A write that has
    /// failed keeps its first reason.
    pub fn step(&mut self, event: WriteEvent)
        ensures
            final(self).target() == old(self).target(),
            final(self).reached() == next_stage(old(self).reached(), event@),
            final(self).reached() != WriteStage::Failed ==> final(self).reason().is_none(),
            final(self).reached() == WriteStage::Failed ==> {
                if old(self).reached() == WriteStage::Failed {
                    final(self).reason() == old(self).reason()
                } else {
                    match failure_of(old(self).reached(), event) {
                        Some(error) => final(self).reason() == Some(error),
                        None => final(self).reason() matches Some(TriggerError::SyncFailure(text)) && text@
                            == "event out of turn"@,
                    }
                }
            },
    {
        proof {
            use_type_invariant(&*self);
        }
        let stage = self.stage;
        match (stage, event) {
            (WriteStage::Registering, WriteEvent::WatchRegistered) => {
                self.stage = WriteStage::Checking;
            },
            (WriteStage::Checking, WriteEvent::Present) => {
                self.stage = WriteStage::Waiting;
            },
            (WriteStage::Checking, WriteEvent::Absent) => {
                self.stage = WriteStage::Writing;
            },
            (WriteStage::Waiting, WriteEvent::Deleted) => {
                self.stage = WriteStage::Writing;
            },
            (WriteStage::Writing, WriteEvent::Written) => {
                self.stage = WriteStage::Succeeded;
            },
            (WriteStage::Failed, _) => {},
            (WriteStage::Registering, WriteEvent::WatchFailed(text)) => {
                *self = SequentialWrite {
                    trigger: self.trigger,
                    stage: WriteStage::Failed,
                    failure: Some(TriggerError::SyncFailure(text)),
                };
            },
            (WriteStage::Waiting, WriteEvent::WaitFailed(text)) => {
                *self = SequentialWrite {
                    trigger: self.trigger,
                    stage: WriteStage::Failed,
                    failure: Some(TriggerError::SyncFailure(text)),
                };
            },
            (WriteStage::Writing, WriteEvent::WriteFailed(text)) => {
                *self = SequentialWrite {
                    trigger: self.trigger,
                    stage: WriteStage::Failed,
                    failure: Some(TriggerError::WriteFailure(text)),
                };
            },
            _ => {
                *self = SequentialWrite {
                    trigger: self.trigger,
                    stage: WriteStage::Failed,
                    failure: Some(TriggerError::SyncFailure(String::from_str("event out of turn"))),
                };
            },
        }
    }

    /// How the write ended: `None` while the host still has something to
    /// do.
    pub fn outcome(self) -> (outcome: Option<Result<(), TriggerError>>)
        ensures
            match self.reached() {
                WriteStage::Succeeded => outcome == Some(Ok::<(), TriggerError>(())),
                WriteStage::Failed => self.reason() matches Some(error) && outcome == Some(
                    Err::<(), TriggerError>(error),
                ),
                _ => outcome.is_none(),
            },
    {
        proof {
            use_type_invariant(&self);
        }
        match self.stage {
            WriteStage::Succeeded => Some(Ok(())),
            WriteStage::Failed => match self.failure {
                Some(error) => Some(Err(error)),
                None => None,
            },
            _ => None,
        }
    }
}

/// The stage that a write has reached after `events`, from `stage` on.
pub open spec fn stage_after(stage: WriteStage, events: Seq<WriteEventKind>) -> WriteStage
    decreases events.len(),
{
    if events.len() == 0 {
        stage
    } else {
        next_stage(stage_after(stage, events.drop_last()), events.last())
    }
}

/// How the file behind a trigger may change while the host carries out what
/// `stage` asks and reports `event`. `before` and `after` are what the file
/// holds, `None` for a file that is not there. The consumer may delete the
/// file at any moment and nobody but this writer creates it. A report on
/// the file is true when it is made; a write that fails leaves the file in
/// no known state.
pub open spec fn file_step(
    stage: WriteStage,
    event: WriteEventKind,
    before: Option<Seq<u8>>,
    payload: Seq<u8>,
    after: Option<Seq<u8>>,
) -> bool {
    match (action_of(stage), event) {
        (WriteAction::Write, WriteEventKind::Written) => after == Some(payload),
        (WriteAction::Write, _) => true,
        (WriteAction::CheckExists, WriteEventKind::Present) => before.is_some() && (after == before
            || after.is_none()),
        (WriteAction::CheckExists, WriteEventKind::Absent) => after.is_none(),
        (WriteAction::AwaitDeletion, WriteEventKind::Deleted) => after.is_none(),
        _ => after == before || after.is_none(),
    }
}

/// Whether `files` tells what the file held before the first event, between
/// the events and after the last, through a write of `payload` that began at
/// `stage`.
pub open spec fn file_history(
    stage: WriteStage,
    events: Seq<WriteEventKind>,
    payload: Seq<u8>,
    files: Seq<Option<Seq<u8>>>,
) -> bool {
    &&& files.len() == events.len() + 1
    &&& forall|i: int|
        0 <= i < events.len() ==> file_step(
            #[trigger] stage_after(stage, events.take(i)),
            events[i],
            files[i],
            payload,
            files[i + 1],
        )
}

/// A sequential write never overwrites a value that was not consumed: at
/// every moment at which the host is asked to write, the file is not there.
/// At the moment at which the write has succeeded, the file holds the
/// payload.
pub proof fn lemma_sequential_write_waits(
    events: Seq<WriteEventKind>,
    payload: Seq<u8>,
    files: Seq<Option<Seq<u8>>>,
    moment: int,
)
    requires
        file_history(WriteStage::Registering, events, payload, files),
        0 <= moment <= events.len(),
    ensures
        stage_after(WriteStage::Registering, events.take(moment)) == WriteStage::Writing ==> files[moment].is_none(),
        stage_after(WriteStage::Registering, events.take(moment)) == WriteStage::Succeeded ==> files[moment] == Some(
            payload,
        ),
{
    if moment > 0 {
        let before = stage_after(WriteStage::Registering, events.take(moment - 1));
        assert(events.take(moment).drop_last() =~= events.take(moment - 1));
        assert(file_step(before, events[moment - 1], files[moment - 1], payload, files[moment - 1 + 1]));
    }
}

/// The watch comes before everything else: whenever the file was looked
/// at, waited for or written, the first event was that the watch stands.
pub proof fn lemma_watch_comes_first(events: Seq<WriteEventKind>, moment: int)
    requires
        0 <= moment <= events.len(),
    ensures
        stage_after(WriteStage::Registering, events.take(moment)) == WriteStage::Registering <==> moment == 0,
        stage_after(WriteStage::Registering, events.take(moment)) != WriteStage::Failed && moment > 0 ==> events[0]
            == WriteEventKind::WatchRegistered,
    decreases moment,
{
    if moment > 0 {
        assert(events.take(moment).drop_last() =~= events.take(moment - 1));
        lemma_watch_comes_first(events, moment - 1);
    }
}

} // verus!
