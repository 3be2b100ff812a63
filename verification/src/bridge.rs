//! What the bridge does with each message, and when it starts and stops.

use vstd::prelude::*;
use vstd::string::{StrSliceExecFns, StringExecFns};
use crate::frame::ByteOrder;
use crate::native_host_messages::{
    encode, encoded, DecodeError, EncodeError, EncodeFault, MessageView, NativeHostMessage, NativeHostMessageType,
};
use crate::payload::{Payload, PayloadView};
use crate::triggers::Trigger;

verus! {

/// Where the last segment of a path begins: behind its last slash, or at
/// the start where it has none.
pub open spec fn segment_start(path: Seq<char>) -> int
    decreases path.len(),
{
    if path.len() == 0 || path.last() == '/' {
        path.len() as int
    } else {
        segment_start(path.drop_last())
    }
}

/// The last segment of a path: what stands behind its last slash. It is
/// empty for a path that ends in a slash.
pub open spec fn last_segment(path: Seq<char>) -> Seq<char> {
    path.subrange(segment_start(path), path.len() as int)
}

/// The last segment begins inside the path, holds no slash, and is either
/// the whole path or stands right behind a slash.
pub proof fn lemma_last_segment(path: Seq<char>)
    ensures
        0 <= segment_start(path) <= path.len(),
        forall|i: int| segment_start(path) <= i < path.len() ==> path[i] != '/',
        segment_start(path) > 0 ==> path[segment_start(path) - 1] == '/',
    decreases path.len(),
{
    if path.len() > 0 && path.last() != '/' {
        let head = path.drop_last();
        lemma_last_segment(head);
        assert forall|i: int| segment_start(path) <= i < path.len() implies path[i] != '/' by {
            if i < head.len() {
                assert(path[i] == head[i]);
            }
        }
    }
}

/// The last segment of `path`, split on slashes.
pub fn file_name_of(path: &str) -> (name: String)
    ensures
        name@ == last_segment(path@),
{
    let length = path.unicode_len();
    let mut start: usize = 0;
    let mut seen: usize = 0;
    for c in iter: path.chars()
        invariant
            iter.seq() == path@,
            seen == iter.index(),
            length == path@.len(),
            start == segment_start(path@.subrange(0, seen as int)),
    {
        assert(path@.subrange(0, seen + 1).drop_last() =~= path@.subrange(0, seen as int));
        seen += 1;
        if c == '/' {
            start = seen;
        }
    }
    proof {
        assert(path@.subrange(0, seen as int) =~= path@);
        lemma_last_segment(path@);
    }
    String::from_str(path.substring_char(start, length))
}

/// What the host is to do about a message.
#[derive(Debug)]
pub enum Effect {
    /// End the session.
    Exit,
    /// Write `data` to `trigger` once the value before it was consumed.
    WriteTrigger { trigger: Trigger, data: String },
    /// Set the keyboard repeat rate.
    SetKeyboardRepeatRate { delay: i64, rate: i64 },
    /// Set the time zone.
    SetTimezone { zone: String },
    /// Say what is wrong with the message and go on.
    Report(Complaint),
    /// Go on: the message asks for nothing.
    Nothing,
}

/// What can be wrong with the payload of a message. None of it ends the
/// session.
#[derive(Debug, Clone, Copy, PartialEq, Eq, Structural)]
pub enum Complaint {
    /// A finished download came without a file name.
    NoFilename,
    /// A pointer lock came without a boolean.
    NoBoolean,
    /// A keyboard repeat rate came without its two integers.
    NoRepeatRate,
    /// A time zone came without its name.
    NoTimezone,
}

/// What an [`Effect`] stands for.
pub enum EffectView {
    Exit,
    WriteTrigger { trigger: Trigger, data: Seq<char> },
    SetKeyboardRepeatRate { delay: int, rate: int },
    SetTimezone { zone: Seq<char> },
    Report(Complaint),
    Nothing,
}

impl View for Effect {
    type V = EffectView;

    open spec fn view(&self) -> EffectView {
        match self {
            Effect::Exit => EffectView::Exit,
            Effect::WriteTrigger { trigger, data } => EffectView::WriteTrigger { trigger: *trigger, data: data@ },
            Effect::SetKeyboardRepeatRate { delay, rate } => EffectView::SetKeyboardRepeatRate {
                delay: *delay as int,
                rate: *rate as int,
            },
            Effect::SetTimezone { zone } => EffectView::SetTimezone { zone: zone@ },
            Effect::Report(complaint) => EffectView::Report(*complaint),
            Effect::Nothing => EffectView::Nothing,
        }
    }
}

/// A finished download: the file name behind the last slash of the path
/// goes to the download trigger. A payload that is no string is reported.
pub open spec fn download_effect(value: PayloadView) -> EffectView {
    match value {
        PayloadView::Text(path) => EffectView::WriteTrigger {
            trigger: Trigger::FileDownload,
            data: last_segment(path),
        },
        _ => EffectView::Report(Complaint::NoFilename),
    }
}

/// A pointer lock: `1` for locked and `0` for released goes to the pointer
/// lock trigger. A payload that is no boolean is reported.
pub open spec fn pointer_lock_effect(value: PayloadView) -> EffectView {
    match value {
        PayloadView::Bool(locked) => EffectView::WriteTrigger {
            trigger: Trigger::PointerLock,
            data: if locked { "1"@ } else { "0"@ },
        },
        _ => EffectView::Report(Complaint::NoBoolean),
    }
}

/// A keyboard repeat rate: the integers under `repeatDelay` and
/// `repeatRate` are handed to the host. Where either is missing or no
/// integer, the message is reported.
pub open spec fn repeat_rate_effect(value: PayloadView) -> EffectView {
    match (value.member("repeatDelay"@), value.member("repeatRate"@)) {
        (Some(PayloadView::Integer(delay)), Some(PayloadView::Integer(rate))) => EffectView::SetKeyboardRepeatRate {
            delay,
            rate,
        },
        _ => EffectView::Report(Complaint::NoRepeatRate),
    }
}

/// A time zone: its name is handed to the host. A payload that is no string
/// is reported.
pub open spec fn timezone_effect(value: PayloadView) -> EffectView {
    match value {
        PayloadView::Text(zone) => EffectView::SetTimezone { zone },
        _ => EffectView::Report(Complaint::NoTimezone),
    }
}

/// What the host is to do about `message`. The kinds that only the host
/// sends ask for nothing when they come in.
pub open spec fn effect_of(message: MessageView) -> EffectView {
    match message.kind {
        NativeHostMessageType::NativeHostExit => EffectView::Exit,
        NativeHostMessageType::DownloadComplete => download_effect(message.value),
        NativeHostMessageType::PointerLock => pointer_lock_effect(message.value),
        NativeHostMessageType::KeyboardRepeatRate => repeat_rate_effect(message.value),
        NativeHostMessageType::Timezone => timezone_effect(message.value),
        NativeHostMessageType::Geolocation => EffectView::Nothing,
        NativeHostMessageType::NativeHostUpdate => EffectView::Nothing,
        NativeHostMessageType::NativeHostKeepalive => EffectView::Nothing,
    }
}

/// Says what to do about a finished download.
pub fn handle_download_complete(message: &NativeHostMessage) -> (effect: Effect)
    ensures
        effect@ == download_effect(message@.value),
{
    match message.value.as_text() {
        Some(path) => Effect::WriteTrigger { trigger: Trigger::FileDownload, data: file_name_of(path) },
        None => Effect::Report(Complaint::NoFilename),
    }
}

/// Says what to do about a change of the pointer lock.
pub fn handle_pointer_lock(message: &NativeHostMessage) -> (effect: Effect)
    ensures
        effect@ == pointer_lock_effect(message@.value),
{
    match message.value.as_bool() {
        Some(true) => Effect::WriteTrigger { trigger: Trigger::PointerLock, data: String::from_str("1") },
        Some(false) => Effect::WriteTrigger { trigger: Trigger::PointerLock, data: String::from_str("0") },
        None => Effect::Report(Complaint::NoBoolean),
    }
}

/// Says what to do about a keyboard repeat rate.
pub fn handle_keyboard_repeat_rate(message: &NativeHostMessage) -> (effect: Effect)
    ensures
        effect@ == repeat_rate_effect(message@.value),
{
    let delay = match message.value.member("repeatDelay") {
        Some(held) => held.as_integer(),
        None => None,
    };
    let rate = match message.value.member("repeatRate") {
        Some(held) => held.as_integer(),
        None => None,
    };
    match (delay, rate) {
        (Some(delay), Some(rate)) => Effect::SetKeyboardRepeatRate { delay, rate },
        _ => Effect::Report(Complaint::NoRepeatRate),
    }
}

/// Says what to do about a time zone.
pub fn handle_timezone(message: &NativeHostMessage) -> (effect: Effect)
    ensures
        effect@ == timezone_effect(message@.value),
{
    match message.value.as_text() {
        Some(zone) => Effect::SetTimezone { zone: String::from_str(zone) },
        None => Effect::Report(Complaint::NoTimezone),
    }
}

/// Says what to do about an inbound message, by its kind.
pub fn dispatch(message: &NativeHostMessage) -> (effect: Effect)
    ensures
        effect@ == effect_of(message@),
{
    match message.msg_type {
        NativeHostMessageType::NativeHostExit => Effect::Exit,
        NativeHostMessageType::DownloadComplete => handle_download_complete(message),
        NativeHostMessageType::PointerLock => handle_pointer_lock(message),
        NativeHostMessageType::KeyboardRepeatRate => handle_keyboard_repeat_rate(message),
        NativeHostMessageType::Timezone => handle_timezone(message),
        NativeHostMessageType::Geolocation => Effect::Nothing,
        NativeHostMessageType::NativeHostUpdate => Effect::Nothing,
        NativeHostMessageType::NativeHostKeepalive => Effect::Nothing,
    }
}

/// What the update check asks of the host at the start of a session.
#[derive(Debug)]
pub struct UpdateCheck {
    /// Whether the marker is to be created, with nothing in it.
    pub create_marker: bool,
    /// The message that tells the extension whether it is to update.
    pub announcement: NativeHostMessage,
}

/// The message that tells the extension whether it is to update.
pub open spec fn update_message(needs_update: bool) -> MessageView {
    MessageView { kind: NativeHostMessageType::NativeHostUpdate, value: PayloadView::Bool(needs_update) }
}

/// What the update check decides from whether the marker of the
/// `DidUpdateExtension` trigger is there: whether the marker is to be
/// created, and the message to send. Where the marker is missing the
/// extension is told to update and the marker is created; where it is there
/// the extension is told that all is ready and the marker is left alone.
pub open spec fn update_check(marker_exists: bool) -> (bool, MessageView) {
    (!marker_exists, update_message(!marker_exists))
}

/// Decides the update check at the start of a session. One message is sent
/// either way.
pub fn check_for_updates(marker_exists: bool) -> (check: UpdateCheck)
    ensures
        (check.create_marker, check.announcement@) == update_check(marker_exists),
{
    let needs_update = !marker_exists;
    UpdateCheck {
        create_marker: needs_update,
        announcement: NativeHostMessage {
            msg_type: NativeHostMessageType::NativeHostUpdate,
            value: Payload::Bool(needs_update),
        },
    }
}

/// Whether the marker is there once the host has done what was decided.
pub open spec fn marker_after(marker_exists: bool, create_marker: bool) -> bool {
    marker_exists || create_marker
}

/// The update check asks for an update once. A check that finds no marker
/// creates it and announces an update. Whatever the first check found, the
/// marker is there after it, and a second check announces that no update is
/// needed and leaves the marker as it is.
pub proof fn lemma_update_check_settles(marker_exists: bool)
    ensures
        !marker_exists ==> update_check(marker_exists) == (true, update_message(true)),
        marker_after(marker_exists, update_check(marker_exists).0),
        ({
            let found = marker_after(marker_exists, update_check(marker_exists).0);
            &&& update_check(found) == (false, update_message(false))
            &&& marker_after(found, update_check(found).0) == found
        }),
{
}

/// The message that tells the extension where the user is.
pub open spec fn geolocation_message(longitude: Seq<char>, latitude: Seq<char>) -> MessageView {
    MessageView {
        kind: NativeHostMessageType::Geolocation,
        value: PayloadView::Object(
            seq![("latitude"@, PayloadView::Text(latitude)), ("longitude"@, PayloadView::Text(longitude))],
        ),
    }
}

/// The message with the parameters of the session, if there is one to send:
/// the place of the user, where both its longitude and its latitude are
/// known and neither is empty.
pub fn send_startup_params(longitude: &str, latitude: &str) -> (message: Option<NativeHostMessage>)
    ensures
        match message {
            Some(sent) => longitude@.len() > 0 && latitude@.len() > 0 && sent@ == geolocation_message(
                longitude@,
                latitude@,
            ),
            None => longitude@.len() == 0 || latitude@.len() == 0,
        },
{
    if longitude.is_empty() || latitude.is_empty() {
        return None;
    }
    let mut members: Vec<(String, Payload)> = Vec::new();
    members.push((String::from_str("latitude"), Payload::Text(String::from_str(latitude))));
    members.push((String::from_str("longitude"), Payload::Text(String::from_str(longitude))));
    assert(members@[0].1@ == PayloadView::Text(latitude@));
    assert(members@[1].1@ == PayloadView::Text(longitude@));
    let value = Payload::Object(members);
    assert(value@->Object_0 =~= geolocation_message(longitude@, latitude@).value->Object_0);
    Some(NativeHostMessage { msg_type: NativeHostMessageType::Geolocation, value })
}

/// Seconds between two keepalive messages.
pub const KEEPALIVE_INTERVAL_SECS: u64 = 5;

/// The message that tells the browser that the host is alive.
pub open spec fn keepalive_message() -> MessageView {
    MessageView { kind: NativeHostMessageType::NativeHostKeepalive, value: PayloadView::Null }
}

/// One turn of the heartbeat.
#[derive(Debug)]
pub enum Beat {
    /// Send `frame`, then sleep for `pause_secs` seconds and ask again.
    Send { frame: Vec<u8>, pause_secs: u64 },
    /// The session is shutting down: end the heartbeat.
    Stop,
}

/// Decides one turn of the heartbeat from the shutdown flag, read as
/// `keep_running`. While the session runs, the turn is one keepalive frame
/// and a pause of [`KEEPALIVE_INTERVAL_SECS`]; once it shuts down, the
/// heartbeat ends. A frame that cannot be built ends it with that error.
pub fn send_keepalive_messages(order: ByteOrder, keep_running: bool) -> (turn: Result<Beat, EncodeError>)
    ensures
        match turn {
            Ok(Beat::Stop) => !keep_running,
            Ok(Beat::Send { frame, pause_secs }) => keep_running && pause_secs == KEEPALIVE_INTERVAL_SECS && encoded(
                order,
                keepalive_message(),
            ) == Ok::<Seq<u8>, EncodeFault>(frame@),
            Err(error) => keep_running && encoded(order, keepalive_message()) == Err::<Seq<u8>, EncodeFault>(error@),
        },
{
    if !keep_running {
        return Ok(Beat::Stop);
    }
    let keepalive = NativeHostMessage { msg_type: NativeHostMessageType::NativeHostKeepalive, value: Payload::Null };
    match encode(order, &keepalive) {
        Ok(frame) => Ok(Beat::Send { frame, pause_secs: KEEPALIVE_INTERVAL_SECS }),
        Err(error) => Err(error),
    }
}

/// Where the bridge stands.
#[derive(Debug, Clone, Copy, PartialEq, Eq, Structural)]
pub enum BridgeState {
    /// The update check and the startup message are under way.
    Starting,
    /// Frames are read and acted on.
    Running,
    /// The heartbeat was told to stop and is waited for.
    Draining,
    /// The session is over.
    Stopped,
}

/// How the heartbeat ended.
#[derive(Debug, Clone, Copy, PartialEq, Eq, Structural)]
pub enum HeartbeatEnd {
    /// It stopped when told to, with no failure.
    Clean,
    /// It gave up because a frame could not be sent.
    Failed,
    /// It could not be waited for.
    Lost,
}

/// How the process ends.
#[derive(Debug, Clone, Copy, PartialEq, Eq, Structural)]
pub enum ExitStatus {
    Success,
    Failure,
}

/// What the host reports to the bridge.
#[derive(Debug)]
pub enum BridgeEvent {
    /// The startup messages were sent, or could not be.
    Started { ok: bool },
    /// A frame was read; it was a message, or was refused.
    Frame(Result<NativeHostMessage, DecodeError>),
    /// What the bridge last asked for was done, or failed.
    Performed { ok: bool },
    /// The heartbeat has ended.
    HeartbeatJoined(HeartbeatEnd),
}

/// What the bridge asks of the host.
#[derive(Debug)]
pub enum BridgeAction {
    /// Start the heartbeat, then read a frame.
    StartHeartbeat,
    /// Read a frame.
    ReadFrame,
    /// Carry out the effect and report how it went.
    Perform(Effect),
    /// Say that a frame was refused, then read the next one.
    ReportFrame(DecodeError),
    /// Set the shutdown flag and wait for the heartbeat.
    StopHeartbeat,
    /// End the process.
    Exit(ExitStatus),
}

/// What a [`BridgeAction`] stands for.
pub enum BridgeActionView {
    StartHeartbeat,
    ReadFrame,
    Perform(EffectView),
    ReportFrame,
    StopHeartbeat,
    Exit(ExitStatus),
}

impl View for BridgeAction {
    type V = BridgeActionView;

    open spec fn view(&self) -> BridgeActionView {
        match self {
            BridgeAction::StartHeartbeat => BridgeActionView::StartHeartbeat,
            BridgeAction::ReadFrame => BridgeActionView::ReadFrame,
            BridgeAction::Perform(effect) => BridgeActionView::Perform(effect@),
            BridgeAction::ReportFrame(_) => BridgeActionView::ReportFrame,
            BridgeAction::StopHeartbeat => BridgeActionView::StopHeartbeat,
            BridgeAction::Exit(status) => BridgeActionView::Exit(*status),
        }
    }
}

/// What a [`BridgeEvent`] stands for.
pub enum BridgeEventView {
    Started { ok: bool },
    Message(MessageView),
    Refused,
    Performed { ok: bool },
    HeartbeatJoined(HeartbeatEnd),
}

impl View for BridgeEvent {
    type V = BridgeEventView;

    open spec fn view(&self) -> BridgeEventView {
        match self {
            BridgeEvent::Started { ok } => BridgeEventView::Started { ok: *ok },
            BridgeEvent::Frame(Ok(message)) => BridgeEventView::Message(message@),
            BridgeEvent::Frame(Err(_)) => BridgeEventView::Refused,
            BridgeEvent::Performed { ok } => BridgeEventView::Performed { ok: *ok },
            BridgeEvent::HeartbeatJoined(end) => BridgeEventView::HeartbeatJoined(*end),
        }
    }
}

/// The state that follows and what is asked of the host, for each state and
/// event.
///
/// A session that cannot start ends in failure. While it runs, an exit
/// message begins the shutdown; any other message is acted on, and a frame
/// that was refused is reported and passed over. An effect that fails ends
/// the session in failure. The shutdown waits for the heartbeat, and the
/// process succeeds only if the heartbeat ended without failure. An event
/// that the state has no use for ends the session in failure; once stopped,
/// the bridge stays stopped.
pub open spec fn bridge_step(state: BridgeState, event: BridgeEventView) -> (BridgeState, BridgeActionView) {
    match (state, event) {
        (BridgeState::Starting, BridgeEventView::Started { ok: true }) => (
            BridgeState::Running,
            BridgeActionView::StartHeartbeat,
        ),
        (BridgeState::Running, BridgeEventView::Message(message)) => match effect_of(message) {
            EffectView::Exit => (BridgeState::Draining, BridgeActionView::StopHeartbeat),
            effect => (BridgeState::Running, BridgeActionView::Perform(effect)),
        },
        (BridgeState::Running, BridgeEventView::Refused) => (BridgeState::Running, BridgeActionView::ReportFrame),
        (BridgeState::Running, BridgeEventView::Performed { ok: true }) => (
            BridgeState::Running,
            BridgeActionView::ReadFrame,
        ),
        (BridgeState::Draining, BridgeEventView::HeartbeatJoined(HeartbeatEnd::Clean)) => (
            BridgeState::Stopped,
            BridgeActionView::Exit(ExitStatus::Success),
        ),
        _ => (BridgeState::Stopped, BridgeActionView::Exit(ExitStatus::Failure)),
    }
}

/// Moves the bridge on by one event.
pub fn step(state: BridgeState, event: BridgeEvent) -> (next: (BridgeState, BridgeAction))
    ensures
        next.0 == bridge_step(state, event@).0,
        next.1@ == bridge_step(state, event@).1,
{
    match (state, event) {
        (BridgeState::Starting, BridgeEvent::Started { ok: true }) => (
            BridgeState::Running,
            BridgeAction::StartHeartbeat,
        ),
        (BridgeState::Running, BridgeEvent::Frame(Ok(message))) => match dispatch(&message) {
            Effect::Exit => (BridgeState::Draining, BridgeAction::StopHeartbeat),
            effect => (BridgeState::Running, BridgeAction::Perform(effect)),
        },
        (BridgeState::Running, BridgeEvent::Frame(Err(error))) => (BridgeState::Running, BridgeAction::ReportFrame(error)),
        (BridgeState::Running, BridgeEvent::Performed { ok: true }) => (BridgeState::Running, BridgeAction::ReadFrame),
        (BridgeState::Draining, BridgeEvent::HeartbeatJoined(HeartbeatEnd::Clean)) => (
            BridgeState::Stopped,
            BridgeAction::Exit(ExitStatus::Success),
        ),
        _ => (BridgeState::Stopped, BridgeAction::Exit(ExitStatus::Failure)),
    }
}

/// An exit message ends the reading: from the running state it leads to the
/// shutdown, where the heartbeat is stopped, and no frame is read after it.
pub proof fn lemma_exit_begins_shutdown(message: MessageView)
    requires
        message.kind == NativeHostMessageType::NativeHostExit,
    ensures
        bridge_step(BridgeState::Running, BridgeEventView::Message(message)) == (
            BridgeState::Draining,
            BridgeActionView::StopHeartbeat,
        ),
        forall|event: BridgeEventView| #[trigger]
            bridge_step(BridgeState::Draining, event).0 == BridgeState::Stopped,
        forall|event: BridgeEventView| #[trigger]
            bridge_step(BridgeState::Stopped, event).0 == BridgeState::Stopped,
{
}

} // verus!
