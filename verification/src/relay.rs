//! Decision logic of the interactive relay: how one inbound client message
//! or process event maps to an action on the bridged session.
//!
//! The relay bridges a persistent duplex client connection to one session's
//! process. The connection loop itself — sockets, tasks, awaiting — lives
//! with the caller; every decision it takes comes from `relay_step`.

use crate::text::{decode_lossy, lossy_decode};
use vstd::prelude::*;
use vstd::string::StrSliceExecFns;
use vstd::string::StringSliceAdditionalSpecFns;

verus! {

/// The string under `key` in the JSON document `text`, if `text` parses as
/// a structured payload holding a string there. A function of the two
/// arguments alone.
pub uninterp spec fn json_str_field(text: Seq<char>, key: Seq<char>) -> Option<Seq<char>>;

/// Relies on `serde_json::from_str`, `serde_json::Value::get` and
/// `serde_json::Value::as_str`: parsing and field lookup depend on the
/// document and key alone.
#[verifier::external_body]
fn get_string_field(text: &str, key: &str) -> (r: Option<String>)
    ensures
        match r {
            Some(s) => json_str_field(text@, key@) == Some(s@),
            None => json_str_field(text@, key@) is None,
        },
{
    serde_json::from_str::<serde_json::Value>(text)
        .ok()
        .and_then(|v| v.get(key).and_then(|f| f.as_str()).map(|s| s.to_string()))
}

/// What an inbound text message means as process input: a message that looks
/// structured (it opens a JSON object) is searched for a `data`, then an
/// `input` string field; anything else is taken verbatim.
pub open spec fn interpreted_input(text: Seq<char>) -> Seq<char> {
    if text.len() > 0 && text[0] == '{' {
        match json_str_field(text, "data"@) {
            Some(d) => d,
            None => match json_str_field(text, "input"@) {
                Some(inp) => inp,
                None => text,
            },
        }
    } else {
        text
    }
}

/// Resolve an inbound text message to the exact input text to write.
pub fn interpret_message(text: &str) -> (out: String)
    ensures
        out@ == interpreted_input(text@),
{
    if !text.is_empty() && text.get_char(0) == '{' {
        match get_string_field(text, "data") {
            Some(d) => d,
            None => match get_string_field(text, "input") {
                Some(inp) => inp,
                None => text.to_owned(),
            },
        }
    } else {
        text.to_owned()
    }
}

/// One thing the connection loop observed.
#[derive(Debug, PartialEq)]
pub enum RelayEvent {
    /// An inbound text message from the client.
    Text(String),
    /// An inbound binary message from the client.
    Binary(Vec<u8>),
    /// The client closed the connection.
    CloseRequested,
    /// Receiving from the client failed.
    InboundFailed,
    /// Sending to the client failed.
    OutboundFailed,
    /// Bytes drained from the process's output.
    ProcessOutput(Vec<u8>),
    /// The process's output reached end-of-stream.
    ProcessEof,
}

/// What the connection loop must do next.
#[derive(Debug, PartialEq)]
pub enum RelayAction {
    /// Write these bytes to the process's input, verbatim.
    WriteInput(Vec<u8>),
    /// Send this text to the client.
    SendOutput(String),
    /// Terminate the child process, stop both forwarding flows, and release
    /// every resource of the connection.
    Teardown,
}

/// The relay's whole policy, one event at a time: text is interpreted and
/// written as input, binary is written verbatim, process output is decoded
/// and forwarded, and a close or a failure on either side tears the bridge
/// down — immediately and unconditionally.
pub fn relay_step(event: RelayEvent) -> (action: RelayAction)
    ensures
        match event {
            RelayEvent::Text(t) => match action {
                RelayAction::WriteInput(b) => b@ == vstd::utf8::encode_utf8(
                    interpreted_input(t@),
                ),
                _ => false,
            },
            RelayEvent::Binary(d) => match action {
                RelayAction::WriteInput(b) => b@ == d@,
                _ => false,
            },
            RelayEvent::CloseRequested => action == RelayAction::Teardown,
            RelayEvent::InboundFailed => action == RelayAction::Teardown,
            RelayEvent::OutboundFailed => action == RelayAction::Teardown,
            RelayEvent::ProcessOutput(d) => match action {
                RelayAction::SendOutput(s) => s@ == lossy_decode(d@),
                _ => false,
            },
            RelayEvent::ProcessEof => action == RelayAction::Teardown,
        },
{
    match event {
        RelayEvent::Text(t) => {
            let input = interpret_message(t.as_str());
            RelayAction::WriteInput(input.as_str().as_bytes_vec())
        },
        RelayEvent::Binary(d) => RelayAction::WriteInput(d),
        RelayEvent::CloseRequested => RelayAction::Teardown,
        RelayEvent::InboundFailed => RelayAction::Teardown,
        RelayEvent::OutboundFailed => RelayAction::Teardown,
        RelayEvent::ProcessOutput(d) => RelayAction::SendOutput(decode_lossy(d.as_slice())),
        RelayEvent::ProcessEof => RelayAction::Teardown,
    }
}

} // verus!
