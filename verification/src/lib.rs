//! Messaging bridge between a browser extension and the host that it runs on.
//!
//! The library holds the decisions of the bridge: the wire format of a frame,
//! the shape of a message, what each inbound message asks of the host, and the
//! order in which a trigger file is watched, checked and written. Reading and
//! writing streams and files is left to the program around it, which reports
//! what happened and is told what to do next.
//!
//! * [`native_host_messages`]: messages, their JSON documents and their frames.
//! * [`frame`]: the length prefix and the byte order it stands in.
//! * [`payload`], [`writer`], [`number`], [`decimal`], [`ascii`]: the JSON
//!   value that a message carries and its text.
//! * [`json`]: what is left to `serde_json`.
//! * [`triggers`]: trigger files and the write that waits for the consumer.
//! * [`bridge`]: the handlers, the startup, the heartbeat and the session.

pub mod ascii;
pub mod bridge;
pub mod decimal;
pub mod frame;
pub mod json;
pub mod native_host_messages;
pub mod number;
pub mod payload;
pub mod triggers;
pub mod writer;
