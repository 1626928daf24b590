//! What the remote side sent: the acknowledgement of the credential and the
//! replies to commands.

use vstd::prelude::*;
use crate::error::{error_document, error_object, BridgeError};
use crate::document::{is_document, is_json, text_member, text_member_of};
use crate::json::{json_text, parse, parsed_json};
use crate::text::{option_str_text, same_text};

verus! {

/// Whether a status is the success token `ok`.
pub open spec fn status_accepted(status: Option<Seq<char>>) -> bool {
    status == Some("ok"@)
}

/// Whether a reply acknowledges the credential: it is a JSON document whose
/// `status` is the string `ok`.
pub open spec fn acknowledged(reply: Seq<char>) -> bool {
    match parsed_json(reply) {
        Some(doc) => status_accepted(text_member(doc, "status"@)),
        None => false,
    }
}

/// The output line for what arrived in place of a reply: the text itself
/// where it is a JSON document, the error document of an invalid response
/// where it is not, and that of an empty response where the message carried
/// no text.
pub open spec fn reply_line(text: Option<Seq<char>>) -> Seq<char> {
    match text {
        Some(t) => if is_json(t) {
            t
        } else {
            json_text(error_document(BridgeError::InvalidServerResponse.message_text()))
        },
        None => json_text(error_document(BridgeError::EmptyResponse.message_text())),
    }
}

/// Tells whether a status is the success token.
pub fn accepts_status(status: Option<&str>) -> (b: bool)
    ensures
        b == status_accepted(option_str_text(status)),
{
    match status {
        Some(s) => same_text(s, "ok"),
        None => false,
    }
}

/// Tells whether a reply acknowledges the credential.
pub fn handshake_accepted(reply: &str) -> (b: bool)
    ensures
        b == acknowledged(reply@),
{
    match parse(reply) {
        Ok(doc) => {
            let status = text_member_of(&doc, "status");
            match &status {
                Some(s) => accepts_status(Some(s.as_str())),
                None => accepts_status(None),
            }
        },
        Err(_) => false,
    }
}

/// Makes the output line for what arrived in place of a reply; `None` stands
/// for a message without text.
pub fn reply_output(text: Option<&str>) -> (line: String)
    ensures
        line@ == reply_line(option_str_text(text)),
{
    match text {
        Some(t) => {
            if is_document(t) {
                t.to_owned()
            } else {
                error_object(BridgeError::InvalidServerResponse)
            }
        },
        None => error_object(BridgeError::EmptyResponse),
    }
}

} // verus!
