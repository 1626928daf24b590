//! The faults of the bridge and the error document written for them.

use vstd::prelude::*;
use crate::json::{json_object, json_string, json_text, object_value, render, string_value};

verus! {

/// What can go wrong between the local streams and the remote service.
#[derive(Clone, Copy, Debug, PartialEq, Eq, Structural)]
pub enum BridgeError {
    /// The input ended before the credential line.
    MissingInput,
    /// The credential line is no JSON document or holds no usable API key.
    MalformedCredential,
    /// Connecting, sending or receiving failed.
    TransportError,
    /// The remote service did not acknowledge the credential.
    AuthenticationRejected,
    /// The body of a one-shot response is no JSON document.
    DecodeError,
    /// A reply inside the session is no JSON document.
    InvalidServerResponse,
    /// A command line names no command of the dispatch table.
    UnrecognizedCommand,
    /// The message that arrived in place of a reply carries no text.
    EmptyResponse,
    /// A command line is no JSON document.
    MalformedCommand,
}

impl BridgeError {
    /// The message that the error document carries for this fault.
    pub open spec fn message_text(self) -> Seq<char> {
        match self {
            BridgeError::MissingInput => "no_input"@,
            BridgeError::MalformedCredential => "invalid_json"@,
            BridgeError::TransportError => "network error"@,
            BridgeError::AuthenticationRejected => "authentication rejected"@,
            BridgeError::DecodeError => "bad_response"@,
            BridgeError::InvalidServerResponse => "invalid response format"@,
            BridgeError::UnrecognizedCommand => "unknown command"@,
            BridgeError::EmptyResponse => "no response from server"@,
            BridgeError::MalformedCommand => "invalid command line"@,
        }
    }

    /// The message that the error document carries for this fault.
    pub fn message(&self) -> (s: &'static str)
        ensures
            s@ == self.message_text(),
    {
        match self {
            BridgeError::MissingInput => "no_input",
            BridgeError::MalformedCredential => "invalid_json",
            BridgeError::TransportError => "network error",
            BridgeError::AuthenticationRejected => "authentication rejected",
            BridgeError::DecodeError => "bad_response",
            BridgeError::InvalidServerResponse => "invalid response format",
            BridgeError::UnrecognizedCommand => "unknown command",
            BridgeError::EmptyResponse => "no response from server",
            BridgeError::MalformedCommand => "invalid command line",
        }
    }
}

/// The error document with the given message: an object whose `status` is
/// the string `error` and whose `message` is the message.
pub open spec fn error_document(message: Seq<char>) -> serde_json::Value {
    json_object(seq![("status"@, json_string("error"@)), ("message"@, json_string(message))])
}

/// Writes the error document with the given message as one line of text.
pub fn error_line(message: &str) -> (line: String)
    ensures
        line@ == json_text(error_document(message@)),
{
    let mut members: Vec<(String, serde_json::Value)> = Vec::new();
    members.push(("status".to_owned(), string_value("error")));
    members.push(("message".to_owned(), string_value(message)));
    assert(crate::json::member_views(members@) =~= seq![
        ("status"@, json_string("error"@)),
        ("message"@, json_string(message@)),
    ]);
    let doc = object_value(members);
    render(&doc)
}

/// Writes the error document of a fault as one line of text.
pub fn error_object(fault: BridgeError) -> (line: String)
    ensures
        line@ == json_text(error_document(fault.message_text())),
{
    error_line(fault.message())
}

} // verus!
