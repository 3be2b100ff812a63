//! Messages between the extension and the host, and the JSON document that
//! carries one: an object with the members `type` and `value`.

use vstd::prelude::*;
use vstd::string::StringExecFns;
use crate::ascii::{CLOSE_BRACE, COMMA, OPEN_BRACE};
use crate::decimal::{append_decimal, append_natural, decimal_text};
use crate::frame::{
    frame, lemma_frame_prefix_counts_body, prefix_length, ByteOrder, MAX_MESSAGE_SIZE, PREFIX_SIZE,
};
use crate::json::{json_parse, json_string, parse_json};
use crate::payload::{same_text, Payload, PayloadView};
use crate::writer::{json_text, keyed, members_text, write_member};

verus! {

/// The kinds of message that cross the bridge.
#[derive(Debug, Clone, Copy, PartialEq, Eq, Structural)]
pub enum NativeHostMessageType {
    DownloadComplete,
    Geolocation,
    /// Sent by the extension to end the session; also stands for the end of
    /// the inbound stream.
    NativeHostExit,
    NativeHostUpdate,
    PointerLock,
    NativeHostKeepalive,
    KeyboardRepeatRate,
    Timezone,
}

/// The tag that names `kind` on the wire.
pub open spec fn wire_tag(kind: NativeHostMessageType) -> Seq<char> {
    match kind {
        NativeHostMessageType::DownloadComplete => "DOWNLOAD_COMPLETE"@,
        NativeHostMessageType::Geolocation => "GEOLOCATION"@,
        NativeHostMessageType::NativeHostExit => "NATIVE_HOST_EXIT"@,
        NativeHostMessageType::NativeHostUpdate => "NATIVE_HOST_UPDATE"@,
        NativeHostMessageType::PointerLock => "POINTER_LOCK"@,
        NativeHostMessageType::NativeHostKeepalive => "NATIVE_HOST_KEEPALIVE"@,
        NativeHostMessageType::KeyboardRepeatRate => "KEYBOARD_REPEAT_RATE"@,
        NativeHostMessageType::Timezone => "TIMEZONE"@,
    }
}

/// The kind that `tag` names, if it names one.
pub open spec fn kind_of_tag(tag: Seq<char>) -> Option<NativeHostMessageType> {
    if tag == wire_tag(NativeHostMessageType::DownloadComplete) {
        Some(NativeHostMessageType::DownloadComplete)
    } else if tag == wire_tag(NativeHostMessageType::Geolocation) {
        Some(NativeHostMessageType::Geolocation)
    } else if tag == wire_tag(NativeHostMessageType::NativeHostExit) {
        Some(NativeHostMessageType::NativeHostExit)
    } else if tag == wire_tag(NativeHostMessageType::NativeHostUpdate) {
        Some(NativeHostMessageType::NativeHostUpdate)
    } else if tag == wire_tag(NativeHostMessageType::PointerLock) {
        Some(NativeHostMessageType::PointerLock)
    } else if tag == wire_tag(NativeHostMessageType::NativeHostKeepalive) {
        Some(NativeHostMessageType::NativeHostKeepalive)
    } else if tag == wire_tag(NativeHostMessageType::KeyboardRepeatRate) {
        Some(NativeHostMessageType::KeyboardRepeatRate)
    } else if tag == wire_tag(NativeHostMessageType::Timezone) {
        Some(NativeHostMessageType::Timezone)
    } else {
        None
    }
}

/// No two kinds share a tag: the tag of a kind names that kind.
pub proof fn lemma_wire_tag_names_its_kind(kind: NativeHostMessageType)
    ensures
        kind_of_tag(wire_tag(kind)) == Some(kind),
{
    reveal_strlit("DOWNLOAD_COMPLETE");
    reveal_strlit("GEOLOCATION");
    reveal_strlit("NATIVE_HOST_EXIT");
    reveal_strlit("NATIVE_HOST_UPDATE");
    reveal_strlit("POINTER_LOCK");
    reveal_strlit("NATIVE_HOST_KEEPALIVE");
    reveal_strlit("KEYBOARD_REPEAT_RATE");
    reveal_strlit("TIMEZONE");
    let d = "DOWNLOAD_COMPLETE"@;
    let g = "GEOLOCATION"@;
    let e = "NATIVE_HOST_EXIT"@;
    let u = "NATIVE_HOST_UPDATE"@;
    let p = "POINTER_LOCK"@;
    let k = "NATIVE_HOST_KEEPALIVE"@;
    let r = "KEYBOARD_REPEAT_RATE"@;
    let t = "TIMEZONE"@;
    assert(d.len() == 17 && g.len() == 11 && e.len() == 16 && u.len() == 18);
    assert(p.len() == 12 && k.len() == 21 && r.len() == 20 && t.len() == 8);
}

impl NativeHostMessageType {
    /// The tag that names this kind on the wire.
    pub fn wire_tag(self) -> (tag: &'static str)
        ensures
            tag@ == wire_tag(self),
    {
        match self {
            NativeHostMessageType::DownloadComplete => "DOWNLOAD_COMPLETE",
            NativeHostMessageType::Geolocation => "GEOLOCATION",
            NativeHostMessageType::NativeHostExit => "NATIVE_HOST_EXIT",
            NativeHostMessageType::NativeHostUpdate => "NATIVE_HOST_UPDATE",
            NativeHostMessageType::PointerLock => "POINTER_LOCK",
            NativeHostMessageType::NativeHostKeepalive => "NATIVE_HOST_KEEPALIVE",
            NativeHostMessageType::KeyboardRepeatRate => "KEYBOARD_REPEAT_RATE",
            NativeHostMessageType::Timezone => "TIMEZONE",
        }
    }

    /// The kind that `tag` names. A tag that names none is refused.
    pub fn from_wire_tag(tag: &str) -> (kind: Option<NativeHostMessageType>)
        ensures
            kind == kind_of_tag(tag@),
    {
        if same_text(tag, "DOWNLOAD_COMPLETE") {
            Some(NativeHostMessageType::DownloadComplete)
        } else if same_text(tag, "GEOLOCATION") {
            Some(NativeHostMessageType::Geolocation)
        } else if same_text(tag, "NATIVE_HOST_EXIT") {
            Some(NativeHostMessageType::NativeHostExit)
        } else if same_text(tag, "NATIVE_HOST_UPDATE") {
            Some(NativeHostMessageType::NativeHostUpdate)
        } else if same_text(tag, "POINTER_LOCK") {
            Some(NativeHostMessageType::PointerLock)
        } else if same_text(tag, "NATIVE_HOST_KEEPALIVE") {
            Some(NativeHostMessageType::NativeHostKeepalive)
        } else if same_text(tag, "KEYBOARD_REPEAT_RATE") {
            Some(NativeHostMessageType::KeyboardRepeatRate)
        } else if same_text(tag, "TIMEZONE") {
            Some(NativeHostMessageType::Timezone)
        } else {
            None
        }
    }
}

/// One message: its kind and the payload that the kind gives a meaning to.
#[derive(Debug)]
pub struct NativeHostMessage {
    pub msg_type: NativeHostMessageType,
    pub value: Payload,
}

/// What a [`NativeHostMessage`] stands for.
pub struct MessageView {
    pub kind: NativeHostMessageType,
    pub value: PayloadView,
}

impl View for NativeHostMessage {
    type V = MessageView;

    open spec fn view(&self) -> MessageView {
        MessageView { kind: self.msg_type, value: self.value@ }
    }
}

impl PartialEq for NativeHostMessage {
    fn eq(&self, other: &Self) -> (same: bool) {
        self.msg_type == other.msg_type && self.value.same_as(&other.value)
    }
}

impl vstd::std_specs::cmp::PartialEqSpecImpl for NativeHostMessage {
    open spec fn obeys_eq_spec() -> bool {
        true
    }

    open spec fn eq_spec(&self, other: &Self) -> bool {
        self@ == other@
    }
}

/// The message that ends a session: `NativeHostExit` without a payload.
pub open spec fn exit_message() -> MessageView {
    MessageView { kind: NativeHostMessageType::NativeHostExit, value: PayloadView::Null }
}

/// Why a JSON document is not a message.
#[derive(Debug)]
pub enum ShapeError {
    /// The document is not an object.
    NotAnObject,
    /// The object has no member `type`.
    MissingType,
    /// The member `type` is not a string.
    TypeNotText,
    /// The member `type` holds a tag that names no kind.
    UnknownType(String),
}

/// What a [`ShapeError`] stands for.
pub enum ShapeFault {
    NotAnObject,
    MissingType,
    TypeNotText,
    UnknownType(Seq<char>),
}

impl View for ShapeError {
    type V = ShapeFault;

    open spec fn view(&self) -> ShapeFault {
        match self {
            ShapeError::NotAnObject => ShapeFault::NotAnObject,
            ShapeError::MissingType => ShapeFault::MissingType,
            ShapeError::TypeNotText => ShapeFault::TypeNotText,
            ShapeError::UnknownType(tag) => ShapeFault::UnknownType(tag@),
        }
    }
}

/// The document that carries a message: an object whose member `type` is
/// the tag of the kind and whose member `value` is the payload.
pub open spec fn document_of(message: MessageView) -> PayloadView {
    PayloadView::Object(
        seq![("type"@, PayloadView::Text(wire_tag(message.kind))), ("value"@, message.value)],
    )
}

/// The message that a document carries. The member `type` must be there and
/// name a kind; a missing member `value` stands for no payload. Members
/// under other keys are passed over.
pub open spec fn message_of(document: PayloadView) -> Result<MessageView, ShapeFault> {
    if !(document is Object) {
        Err(ShapeFault::NotAnObject)
    } else {
        match document.member("type"@) {
            None => Err(ShapeFault::MissingType),
            Some(PayloadView::Text(tag)) => match kind_of_tag(tag) {
                None => Err(ShapeFault::UnknownType(tag)),
                Some(kind) => Ok(
                    MessageView {
                        kind,
                        value: match document.member("value"@) {
                            Some(value) => value,
                            None => PayloadView::Null,
                        },
                    },
                ),
            },
            Some(_) => Err(ShapeFault::TypeNotText),
        }
    }
}

/// A message is read back from its own document unchanged.
pub proof fn lemma_document_round_trip(message: MessageView)
    ensures
        message_of(document_of(message)) == Ok::<MessageView, ShapeFault>(message),
{
    reveal_strlit("type");
    reveal_strlit("value");
    reveal_with_fuel(crate::payload::last_member, 3);
    lemma_wire_tag_names_its_kind(message.kind);
    assert("type"@ != "value"@) by {
        assert("type"@.len() == 4 && "value"@.len() == 5);
    }
}

impl NativeHostMessage {
    /// The message that ends a session.
    pub fn exit() -> (message: NativeHostMessage)
        ensures
            message@ == exit_message(),
    {
        NativeHostMessage { msg_type: NativeHostMessageType::NativeHostExit, value: Payload::Null }
    }
}

/// Takes the message out of a document.
pub fn message_of_document(document: Payload) -> (outcome: Result<NativeHostMessage, ShapeError>)
    ensures
        match outcome {
            Ok(message) => message_of(document@) == Ok::<MessageView, ShapeFault>(message@),
            Err(error) => message_of(document@) == Err::<MessageView, ShapeFault>(error@),
        },
{
    let kind = match document.member("type") {
        None => {
            match document {
                Payload::Object(_) => {
                    return Err(ShapeError::MissingType);
                },
                _ => {
                    return Err(ShapeError::NotAnObject);
                },
            }
        },
        Some(tagged) => match tagged.as_text() {
            None => {
                return Err(ShapeError::TypeNotText);
            },
            Some(tag) => match NativeHostMessageType::from_wire_tag(tag) {
                None => {
                    return Err(ShapeError::UnknownType(String::from_str(tag)));
                },
                Some(kind) => kind,
            },
        },
    };
    let place = document.member_index("value");
    match document {
        Payload::Object(mut members) => {
            match place {
                Some(index) => {
                    let member = members.swap_remove(index);
                    Ok(NativeHostMessage { msg_type: kind, value: member.1 })
                },
                None => Ok(NativeHostMessage { msg_type: kind, value: Payload::Null }),
            }
        },
        _ => Err(ShapeError::NotAnObject),
    }
}

/// Appends to `out` the JSON text of the document that carries `message`.
pub fn write_document(message: &NativeHostMessage, out: &mut Vec<u8>) -> (outcome: Result<(), String>)
    ensures
        match outcome {
            Ok(()) => json_text(document_of(message@)) matches Some(text) && final(out)@ == old(out)@ + text,
            Err(_) => json_text(document_of(message@)).is_none(),
        },
{
    let ghost members = document_of(message@)->Object_0;
    let tag = Payload::Text(String::from_str(message.msg_type.wire_tag()));
    proof {
        // The document has two members: both are looked at.
        reveal_with_fuel(members_text, 3);
    }
    out.push(OPEN_BRACE);
    if let Err(refusal) = write_member("type", &tag, out) {
        return Err(refusal);
    }
    out.push(COMMA);
    if let Err(refusal) = write_member("value", &message.value, out) {
        return Err(refusal);
    }
    out.push(CLOSE_BRACE);
    assert(members_text(members, 1) == keyed(json_string("type"@), json_text(tag@)));
    Ok(())
}

/// Why a message cannot be sent.
#[derive(Debug)]
pub enum EncodeError {
    /// The JSON text is longer than the browser accepts; `size` is its
    /// length in bytes.
    PayloadTooLarge { size: usize },
    /// The message has no JSON text: a string in it has no literal, or a
    /// number in it is held as what is no JSON number. The text says which.
    Unwritable(String),
}

/// What an [`EncodeError`] stands for.
pub enum EncodeFault {
    PayloadTooLarge { size: nat },
    Unwritable,
}

impl View for EncodeError {
    type V = EncodeFault;

    open spec fn view(&self) -> EncodeFault {
        match self {
            EncodeError::PayloadTooLarge { size } => EncodeFault::PayloadTooLarge { size: *size as nat },
            EncodeError::Unwritable(_) => EncodeFault::Unwritable,
        }
    }
}

/// Why the bytes that came in are not a message.
#[derive(Debug)]
pub enum DecodeError {
    /// The stream ended inside a length prefix, after `available` bytes.
    TruncatedPrefix { available: usize },
    /// The prefix holds a negative length other than the exit mark.
    InvalidLength { length: i32 },
    /// The payload is not JSON text; the text says why.
    Json(String),
    /// The payload is JSON text of another shape than a message.
    Shape(ShapeError),
    /// The stream could not be read; the text says why. The host reports
    /// this; reading from memory never does.
    Io(String),
}

/// What a [`DecodeError`] stands for.
pub enum DecodeFault {
    TruncatedPrefix { available: nat },
    InvalidLength { length: int },
    Json,
    Shape(ShapeFault),
    Io,
}

impl View for DecodeError {
    type V = DecodeFault;

    open spec fn view(&self) -> DecodeFault {
        match self {
            DecodeError::TruncatedPrefix { available } => DecodeFault::TruncatedPrefix { available: *available as nat },
            DecodeError::InvalidLength { length } => DecodeFault::InvalidLength { length: *length as int },
            DecodeError::Json(_) => DecodeFault::Json,
            DecodeError::Shape(error) => DecodeFault::Shape(error@),
            DecodeError::Io(_) => DecodeFault::Io,
        }
    }
}

impl ShapeError {
    /// The error in words.
    pub fn message(&self) -> (text: String)
        ensures
            text@ == match self@ {
                ShapeFault::NotAnObject => "message is not a JSON object"@,
                ShapeFault::MissingType => "message has no type"@,
                ShapeFault::TypeNotText => "message type is not a string"@,
                ShapeFault::UnknownType(tag) => "unknown message type: "@ + tag,
            },
    {
        match self {
            ShapeError::NotAnObject => String::from_str("message is not a JSON object"),
            ShapeError::MissingType => String::from_str("message has no type"),
            ShapeError::TypeNotText => String::from_str("message type is not a string"),
            ShapeError::UnknownType(tag) => String::from_str("unknown message type: ").concat(tag.as_str()),
        }
    }
}

impl EncodeError {
    /// The error in words. For a message that is too large they give the
    /// length of its JSON text.
    pub fn message(&self) -> (text: String)
        ensures
            text@ == match self {
                EncodeError::PayloadTooLarge { size } => "Message is too large: "@ + decimal_text(*size as int)
                    + " bytes"@,
                EncodeError::Unwritable(reason) => reason@,
            },
    {
        match self {
            EncodeError::PayloadTooLarge { size } => {
                let mut text = String::from_str("Message is too large: ");
                append_natural(&mut text, *size as u64);
                text.append(" bytes");
                text
            },
            EncodeError::Unwritable(reason) => reason.clone(),
        }
    }
}

impl DecodeError {
    /// The error in words. For a payload that is not JSON text they are the
    /// words of the JSON engine.
    pub fn message(&self) -> (text: String)
        ensures
            text@ == match self {
                DecodeError::TruncatedPrefix { available } => "length prefix ended after "@ + decimal_text(
                    *available as int,
                ) + " of 4 bytes"@,
                DecodeError::InvalidLength { length } => "invalid message length: "@ + decimal_text(*length as int),
                DecodeError::Json(reason) => reason@,
                DecodeError::Shape(error) => match error@ {
                    ShapeFault::NotAnObject => "message is not a JSON object"@,
                    ShapeFault::MissingType => "message has no type"@,
                    ShapeFault::TypeNotText => "message type is not a string"@,
                    ShapeFault::UnknownType(tag) => "unknown message type: "@ + tag,
                },
                DecodeError::Io(reason) => reason@,
            },
    {
        match self {
            DecodeError::TruncatedPrefix { available } => {
                let mut text = String::from_str("length prefix ended after ");
                append_natural(&mut text, *available as u64);
                text.append(" of 4 bytes");
                text
            },
            DecodeError::InvalidLength { length } => {
                let mut text = String::from_str("invalid message length: ");
                append_decimal(&mut text, *length as i64);
                text
            },
            DecodeError::Json(reason) => reason.clone(),
            DecodeError::Shape(error) => error.message(),
            DecodeError::Io(reason) => reason.clone(),
        }
    }
}

/// The frame that carries a message, or why there is none: the JSON text of
/// its document behind a length prefix, unless the document has no text or
/// the text is longer than [`MAX_MESSAGE_SIZE`].
pub open spec fn encoded(order: ByteOrder, message: MessageView) -> Result<Seq<u8>, EncodeFault> {
    match json_text(document_of(message)) {
        None => Err(EncodeFault::Unwritable),
        Some(text) => framed(order, text),
    }
}

/// The frame that carries `text`, unless the text is longer than
/// [`MAX_MESSAGE_SIZE`].
pub open spec fn framed(order: ByteOrder, text: Seq<u8>) -> Result<Seq<u8>, EncodeFault> {
    if text.len() > MAX_MESSAGE_SIZE {
        Err(EncodeFault::PayloadTooLarge { size: text.len() })
    } else {
        Ok(frame(order, text))
    }
}

/// Puts JSON text behind its length prefix. Text that is longer than
/// [`MAX_MESSAGE_SIZE`] is refused, with its length.
pub fn frame_text(order: ByteOrder, text: &[u8]) -> (outcome: Result<Vec<u8>, EncodeError>)
    ensures
        match outcome {
            Ok(bytes) => framed(order, text@) == Ok::<Seq<u8>, EncodeFault>(bytes@),
            Err(error) => framed(order, text@) == Err::<Seq<u8>, EncodeFault>(error@),
        },
{
    let size = text.len();
    if size > MAX_MESSAGE_SIZE {
        return Err(EncodeError::PayloadTooLarge { size });
    }
    let prefix = order.prefix(size as u32);
    let mut bytes: Vec<u8> = Vec::new();
    bytes.extend_from_slice(prefix.as_slice());
    bytes.extend_from_slice(text);
    assert(bytes@ =~= frame(order, text@));
    Ok(bytes)
}

/// The message that a payload of JSON text carries, or why it carries none.
pub open spec fn decoded(text: Seq<u8>) -> Result<MessageView, DecodeFault> {
    match json_parse(text) {
        None => Err(DecodeFault::Json),
        Some(document) => match message_of(document) {
            Ok(message) => Ok(message),
            Err(fault) => Err(DecodeFault::Shape(fault)),
        },
    }
}

/// Builds the frame that carries `message`, in the given byte order.
pub fn encode(order: ByteOrder, message: &NativeHostMessage) -> (outcome: Result<Vec<u8>, EncodeError>)
    ensures
        match outcome {
            Ok(bytes) => encoded(order, message@) == Ok::<Seq<u8>, EncodeFault>(bytes@),
            Err(error) => encoded(order, message@) == Err::<Seq<u8>, EncodeFault>(error@),
        },
{
    let mut text: Vec<u8> = Vec::new();
    if let Err(refusal) = write_document(message, &mut text) {
        return Err(EncodeError::Unwritable(refusal));
    }
    frame_text(order, text.as_slice())
}

/// Reads the message out of the payload of a frame.
pub fn decode_payload(text: &[u8]) -> (outcome: Result<NativeHostMessage, DecodeError>)
    ensures
        match outcome {
            Ok(message) => decoded(text@) == Ok::<MessageView, DecodeFault>(message@),
            Err(error) => decoded(text@) == Err::<MessageView, DecodeFault>(error@),
        },
{
    match parse_json(text) {
        Err(refusal) => Err(DecodeError::Json(refusal)),
        Ok(document) => match message_of_document(document) {
            Ok(message) => Ok(message),
            Err(error) => Err(DecodeError::Shape(error)),
        },
    }
}

/// What a length prefix announces.
#[derive(Debug, Clone, Copy, PartialEq, Eq, Structural)]
pub enum Prefix {
    /// The peer is leaving: nothing came, or the exit mark did.
    Exit,
    /// A payload of `length` bytes follows.
    Payload { length: usize },
}

/// What the bytes that came for a length prefix mean. No byte at all is a
/// peer that left; fewer than four bytes are a broken stream; four bytes
/// hold a signed length, where minus one is the exit mark and any other
/// negative number is refused.
pub open spec fn prefix_meaning(order: ByteOrder, available: Seq<u8>) -> Result<Prefix, DecodeFault> {
    if available.len() == 0 {
        Ok(Prefix::Exit)
    } else if available.len() < 4 {
        Err(DecodeFault::TruncatedPrefix { available: available.len() })
    } else {
        let length = prefix_length(order, available.subrange(0, 4));
        if length == -1 {
            Ok(Prefix::Exit)
        } else if length < 0 {
            Err(DecodeFault::InvalidLength { length })
        } else {
            Ok(Prefix::Payload { length: length as usize })
        }
    }
}

/// Says what the bytes that came for a length prefix mean. `available`
/// holds the four bytes of the prefix, or all that came before the stream
/// ended.
pub fn classify_prefix(order: ByteOrder, available: &[u8]) -> (outcome: Result<Prefix, DecodeError>)
    ensures
        match outcome {
            Ok(prefix) => prefix_meaning(order, available@) == Ok::<Prefix, DecodeFault>(prefix),
            Err(error) => prefix_meaning(order, available@) == Err::<Prefix, DecodeFault>(error@),
        },
{
    let count = available.len();
    if count == 0 {
        Ok(Prefix::Exit)
    } else if count < PREFIX_SIZE {
        Err(DecodeError::TruncatedPrefix { available: count })
    } else {
        let length = order.length(vstd::slice::slice_subrange(available, 0, PREFIX_SIZE));
        if length == -1 {
            Ok(Prefix::Exit)
        } else if length < 0 {
            Err(DecodeError::InvalidLength { length })
        } else {
            Ok(Prefix::Payload { length: length as usize })
        }
    }
}

/// What reading one message from a stream gives, and how many bytes of the
/// stream it takes. `rest` is what the stream still holds.
///
/// A stream that ends before the prefix begins, or inside the payload,
/// gives the exit message; one that ends inside the prefix is an error.
pub open spec fn read_outcome(order: ByteOrder, rest: Seq<u8>) -> (Result<MessageView, DecodeFault>, nat) {
    match prefix_meaning(order, rest) {
        Err(fault) => (Err(fault), if rest.len() < 4 { rest.len() } else { 4 }),
        Ok(Prefix::Exit) => (Ok(exit_message()), if rest.len() == 0 { 0 } else { 4 }),
        Ok(Prefix::Payload { length }) => if rest.len() - 4 < length {
            (Ok(exit_message()), rest.len())
        } else {
            (decoded(rest.subrange(4, 4 + length)), (4 + length) as nat)
        },
    }
}

/// An inbound stream held in memory, with the place up to which it was read.
#[derive(Debug)]
pub struct ByteStream {
    bytes: Vec<u8>,
    position: usize,
}

impl ByteStream {
    #[verifier::type_invariant]
    spec fn within(self) -> bool {
        self.position <= self.bytes@.len()
    }

    /// The bytes that are still to be read.
    pub closed spec fn remaining(self) -> Seq<u8> {
        self.bytes@.subrange(self.position as int, self.bytes@.len() as int)
    }

    /// A stream that holds `bytes`, none of them read yet.
    pub fn new(bytes: Vec<u8>) -> (stream: ByteStream)
        ensures
            stream.remaining() == bytes@,
    {
        let stream = ByteStream { bytes, position: 0 };
        stream
    }

    /// Number of bytes that are still to be read.
    pub fn remaining_len(&self) -> (count: usize)
        ensures
            count == self.remaining().len(),
    {
        proof {
            use_type_invariant(self);
        }
        self.bytes.len() - self.position
    }
}

/// Reads one message from `input`, whose prefixes stand in the given byte
/// order, and moves past the bytes that it took.
pub fn read_message_in(order: ByteOrder, input: &mut ByteStream) -> (outcome: Result<NativeHostMessage, DecodeError>)
    ensures
        match outcome {
            Ok(message) => read_outcome(order, old(input).remaining()).0 == Ok::<MessageView, DecodeFault>(message@),
            Err(error) => read_outcome(order, old(input).remaining()).0 == Err::<MessageView, DecodeFault>(error@),
        },
        final(input).remaining() == old(input).remaining().skip(read_outcome(order, old(input).remaining()).1 as int),
{
    proof {
        use_type_invariant(&*input);
    }
    let ghost rest = input.remaining();
    let end = input.bytes.len();
    let start = input.position;
    let left = end - start;
    let head = if left < PREFIX_SIZE { left } else { PREFIX_SIZE };
    let available = vstd::slice::slice_subrange(input.bytes.as_slice(), start, start + head);
    match classify_prefix(order, available) {
        Err(error) => {
            input.position = start + head;
            Err(error)
        },
        Ok(Prefix::Exit) => {
            input.position = start + head;
            Ok(NativeHostMessage::exit())
        },
        Ok(Prefix::Payload { length }) => {
            if left - PREFIX_SIZE < length {
                input.position = end;
                Ok(NativeHostMessage::exit())
            } else {
                let first = start + PREFIX_SIZE;
                let text = vstd::slice::slice_subrange(input.bytes.as_slice(), first, first + length);
                assert(text@ =~= rest.subrange(4, 4 + length));
                let outcome = decode_payload(text);
                input.position = first + length;
                outcome
            }
        },
    }
}

/// Whether `outcome` and `after` are what reading one message in the given
/// byte order makes of a stream that held `before`.
pub open spec fn was_read(
    order: ByteOrder,
    before: Seq<u8>,
    outcome: Result<NativeHostMessage, DecodeError>,
    after: Seq<u8>,
) -> bool {
    &&& match outcome {
        Ok(message) => read_outcome(order, before).0 == Ok::<MessageView, DecodeFault>(message@),
        Err(error) => read_outcome(order, before).0 == Err::<MessageView, DecodeFault>(error@),
    }
    &&& after == before.skip(read_outcome(order, before).1 as int)
}

/// Reads one message from `input`, whose prefixes stand in the byte order of
/// this machine, and moves past the bytes that it took.
pub fn read_message(input: &mut ByteStream) -> (outcome: Result<NativeHostMessage, DecodeError>)
    ensures
        was_read(ByteOrder::LittleEndian, old(input).remaining(), outcome, final(input).remaining())
            || was_read(ByteOrder::BigEndian, old(input).remaining(), outcome, final(input).remaining()),
{
    read_message_in(ByteOrder::native(), input)
}

/// Whether `outcome` and `after` are what sending `message` in the given
/// byte order makes of an output that held `before`: the whole frame behind
/// what was there, or an error and nothing written.
pub open spec fn was_sent(
    order: ByteOrder,
    before: Seq<u8>,
    message: MessageView,
    outcome: Result<(), EncodeError>,
    after: Seq<u8>,
) -> bool {
    match encoded(order, message) {
        Ok(bytes) => outcome is Ok && after == before + bytes,
        Err(fault) => outcome matches Err(error) && error@ == fault && after == before,
    }
}

/// Appends to `output` the frame that carries `message`, in the given byte
/// order. A message that cannot be sent leaves `output` as it was.
pub fn send_message_in(order: ByteOrder, output: &mut Vec<u8>, message: &NativeHostMessage) -> (outcome: Result<
    (),
    EncodeError,
>)
    ensures
        was_sent(order, old(output)@, message@, outcome, final(output)@),
{
    match encode(order, message) {
        Ok(bytes) => {
            output.extend_from_slice(bytes.as_slice());
            assert(output@ == old(output)@ + bytes@);
            Ok(())
        },
        Err(error) => Err(error),
    }
}

/// Appends to `output` the frame that carries `message`, in the byte order
/// of this machine. A message that cannot be sent leaves `output` as it was.
pub fn send_message(output: &mut Vec<u8>, message: &NativeHostMessage) -> (outcome: Result<(), EncodeError>)
    ensures
        was_sent(ByteOrder::LittleEndian, old(output)@, message@, outcome, final(output)@) || was_sent(
            ByteOrder::BigEndian,
            old(output)@,
            message@,
            outcome,
            final(output)@,
        ),
{
    send_message_in(ByteOrder::native(), output, message)
}

/// Whether the JSON engine reads the text of a message's document back as
/// that document.
pub open spec fn reads_back(message: MessageView) -> bool {
    json_text(document_of(message)) matches Some(text) && json_parse(text) == Some(document_of(message))
}

/// Reading the frame of a message gives the message back and takes the whole
/// frame, for every message whose document the JSON engine reads back.
pub proof fn lemma_round_trip(order: ByteOrder, message: MessageView)
    ensures
        reads_back(message) ==> (encoded(order, message) matches Ok(bytes) ==> read_outcome(order, bytes) == (
            Ok::<MessageView, DecodeFault>(message),
            bytes.len(),
        )),
{
    if let Ok(bytes) = encoded(order, message) {
        if reads_back(message) {
            let text = json_text(document_of(message)).unwrap();
            lemma_frame_prefix_counts_body(order, text);
            lemma_document_round_trip(message);
        }
    }
}

/// The first four bytes of a frame hold the number of bytes of JSON text
/// that follow them.
pub proof fn lemma_frame_announces_its_text(order: ByteOrder, message: MessageView)
    ensures
        encoded(order, message) matches Ok(bytes) ==> {
            &&& bytes.len() >= 4
            &&& prefix_length(order, bytes.subrange(0, 4)) == bytes.len() - 4
            &&& json_text(document_of(message)) == Some(bytes.subrange(4, bytes.len() as int))
        },
{
    if let Ok(bytes) = encoded(order, message) {
        lemma_frame_prefix_counts_body(order, json_text(document_of(message)).unwrap());
    }
}

/// A message whose JSON text is longer than [`MAX_MESSAGE_SIZE`] is refused
/// as too large, with the length of that text.
pub proof fn lemma_too_large_is_refused(order: ByteOrder, message: MessageView)
    ensures
        json_text(document_of(message)) matches Some(text) ==> (text.len() > MAX_MESSAGE_SIZE ==> encoded(
            order,
            message,
        ) == Err::<Seq<u8>, EncodeFault>(EncodeFault::PayloadTooLarge { size: text.len() })),
{
}

/// A stream that holds nothing, or that begins with the exit mark, gives the
/// exit message and no error.
pub proof fn lemma_exit_is_no_error(order: ByteOrder, rest: Seq<u8>)
    requires
        rest.len() == 0 || (rest.len() >= 4 && prefix_length(order, rest.subrange(0, 4)) == -1),
    ensures
        read_outcome(order, rest).0 == Ok::<MessageView, DecodeFault>(exit_message()),
{
    if rest.len() >= 4 {
    }
}

/// A stream that ends after one, two or three bytes is an error, not an
/// exit.
pub proof fn lemma_truncated_prefix_is_an_error(order: ByteOrder, rest: Seq<u8>)
    requires
        1 <= rest.len() <= 3,
    ensures
        read_outcome(order, rest) == (
            Err::<MessageView, DecodeFault>(DecodeFault::TruncatedPrefix { available: rest.len() }),
            rest.len(),
        ),
{
}

} // verus!
