//! The one-shot mode: one request with the credential, one line of output.
//! The body of the request is the message that presents the credential.

use vstd::prelude::*;
use crate::error::{error_document, error_object, BridgeError};
use crate::document::{is_document, is_json};
use crate::json::json_text;
use crate::reply::{acknowledged, handshake_accepted};
use crate::text::option_str_text;

verus! {

/// What the process writes and how it ends.
#[derive(Clone, Debug, PartialEq, Eq)]
pub struct Report {
    /// The one line of output.
    pub line: String,
    /// The exit status: zero where the credential was acknowledged.
    pub status: u8,
}

/// The output line for the outcome of the exchange: the body itself where it
/// is a JSON document, the error document of a decode error where it is not,
/// and that of a transport error where no response came.
pub open spec fn exchange_line(body: Option<Seq<char>>) -> Seq<char> {
    match body {
        Some(b) => if is_json(b) {
            b
        } else {
            json_text(error_document(BridgeError::DecodeError.message_text()))
        },
        None => json_text(error_document(BridgeError::TransportError.message_text())),
    }
}

/// The exit status for the outcome of the exchange: zero exactly where a
/// body came that acknowledges the credential.
pub open spec fn exchange_status(body: Option<Seq<char>>) -> u8 {
    match body {
        Some(b) => if acknowledged(b) {
            0u8
        } else {
            1u8
        },
        None => 1u8,
    }
}

/// Reports the outcome of the exchange; `None` stands for a request that
/// brought no response.
pub fn report_exchange(body: Option<&str>) -> (report: Report)
    ensures
        report.line@ == exchange_line(option_str_text(body)),
        report.status == exchange_status(option_str_text(body)),
{
    match body {
        Some(b) => {
            let line = if is_document(b) {
                b.to_owned()
            } else {
                error_object(BridgeError::DecodeError)
            };
            let status: u8 = if handshake_accepted(b) {
                0
            } else {
                1
            };
            Report { line, status }
        },
        None => Report { line: error_object(BridgeError::TransportError), status: 1 },
    }
}

/// Reports a fault: its error document, and a non-zero exit status.
pub fn report_fault(fault: BridgeError) -> (report: Report)
    ensures
        report.line@ == json_text(error_document(fault.message_text())),
        report.status == 1,
{
    Report { line: error_object(fault), status: 1 }
}

} // verus!
