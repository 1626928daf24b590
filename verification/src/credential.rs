//! The credential: the first input line and the first message of a session.

use vstd::prelude::*;
use crate::error::BridgeError;
use crate::document::{text_member, text_member_of};
use crate::json::{json_object, json_string, json_text, object_value, parse, parsed_json, render, string_value};
use crate::text::{option_str_text, option_text, result_text};

verus! {

/// The caller's identity for the remote service.
#[derive(Clone, Debug, PartialEq, Eq)]
pub struct Credential {
    /// The API key, never empty in a credential that was read from a line.
    pub api_key: String,
    /// The mode selector that the line carried, if any.
    pub mode: Option<String>,
}

/// The API key of a credential line: the non-empty string that the line, read
/// as a JSON document, holds under `api_key`.
pub open spec fn credential_key(line: Seq<char>) -> Option<Seq<char>> {
    match parsed_json(line) {
        Some(doc) => usable_key(text_member(doc, "api_key"@)),
        None => None,
    }
}

/// The mode selector of a credential line: the string under `command`.
pub open spec fn credential_mode(line: Seq<char>) -> Option<Seq<char>> {
    match parsed_json(line) {
        Some(doc) => text_member(doc, "command"@),
        None => None,
    }
}

/// A key that can be used: one that is there and not empty.
pub open spec fn usable_key(key: Option<Seq<char>>) -> Option<Seq<char>> {
    match key {
        Some(k) => if k.len() > 0 {
            Some(k)
        } else {
            None
        },
        None => None,
    }
}

/// The first message of a session: an object whose `api_key` is the key.
pub open spec fn credential_document(key: Seq<char>) -> serde_json::Value {
    json_object(seq![("api_key"@, json_string(key))])
}

/// The first message of a session for the first input line, or the fault
/// that keeps the session from being opened: the input is missing where
/// there is no line, and the credential malformed where the line holds no
/// usable key.
pub open spec fn opening_text(first: Option<Seq<char>>) -> Result<Seq<char>, BridgeError> {
    match first {
        Some(line) => match credential_key(line) {
            Some(key) => Ok(json_text(credential_document(key))),
            None => Err(BridgeError::MalformedCredential),
        },
        None => Err(BridgeError::MissingInput),
    }
}

impl Credential {
    /// A credential is well formed when its API key is not empty.
    pub open spec fn well_formed(&self) -> bool {
        self.api_key@.len() > 0
    }

    /// Makes a credential from the two strings of a credential line. It is
    /// refused as malformed exactly where the key is missing or empty.
    pub fn from_fields(api_key: Option<&str>, mode: Option<&str>) -> (r: Result<
        Credential,
        BridgeError,
    >)
        ensures
            match r {
                Ok(c) => {
                    &&& usable_key(option_str_text(api_key)) == Some(c.api_key@)
                    &&& option_text(c.mode) == option_str_text(mode)
                    &&& c.well_formed()
                },
                Err(e) => {
                    &&& e == BridgeError::MalformedCredential
                    &&& usable_key(option_str_text(api_key)) is None
                },
            },
    {
        match api_key {
            Some(key) => {
                if key.is_empty() {
                    Err(BridgeError::MalformedCredential)
                } else {
                    let mode = match mode {
                        Some(m) => Some(m.to_owned()),
                        None => None,
                    };
                    Ok(Credential { api_key: key.to_owned(), mode })
                }
            },
            None => Err(BridgeError::MalformedCredential),
        }
    }

    /// Reads a credential line. It is refused as malformed exactly where it is
    /// no JSON document or holds no non-empty string under `api_key`.
    pub fn parse(line: &str) -> (r: Result<Credential, BridgeError>)
        ensures
            match r {
                Ok(c) => {
                    &&& credential_key(line@) == Some(c.api_key@)
                    &&& option_text(c.mode) == credential_mode(line@)
                    &&& c.well_formed()
                },
                Err(e) => {
                    &&& e == BridgeError::MalformedCredential
                    &&& credential_key(line@) is None
                },
            },
    {
        match parse(line) {
            Ok(doc) => {
                let key = text_member_of(&doc, "api_key");
                let mode = text_member_of(&doc, "command");
                let key_text = match &key {
                    Some(k) => Some(k.as_str()),
                    None => None,
                };
                let mode_text = match &mode {
                    Some(m) => Some(m.as_str()),
                    None => None,
                };
                Credential::from_fields(key_text, mode_text)
            },
            Err(_) => Err(BridgeError::MalformedCredential),
        }
    }

    /// Takes in the credential from the first input line, if the input had
    /// one. Without a line the input is missing; otherwise as [`Credential::parse`].
    pub fn intake(first: Option<&str>) -> (r: Result<Credential, BridgeError>)
        ensures
            match r {
                Ok(c) => {
                    &&& first matches Some(line)
                    &&& credential_key(line@) == Some(c.api_key@)
                    &&& option_text(c.mode) == credential_mode(line@)
                    &&& c.well_formed()
                },
                Err(e) => match first {
                    Some(line) => e == BridgeError::MalformedCredential && credential_key(line@)
                        is None,
                    None => e == BridgeError::MissingInput,
                },
            },
    {
        match first {
            Some(line) => Credential::parse(line),
            None => Err(BridgeError::MissingInput),
        }
    }

    /// Writes the message that presents this credential to the remote
    /// service.
    pub fn message(&self) -> (text: String)
        ensures
            text@ == json_text(credential_document(self.api_key@)),
    {
        let mut members: Vec<(String, serde_json::Value)> = Vec::new();
        members.push(("api_key".to_owned(), string_value(self.api_key.as_str())));
        assert(crate::json::member_views(members@) =~= seq![
            ("api_key"@, json_string(self.api_key@)),
        ]);
        let doc = object_value(members);
        render(&doc)
    }
}

/// Makes the message that presents the credential of the first input line,
/// or names the fault that keeps it from being made.
pub fn opening_message(first: Option<&str>) -> (r: Result<String, BridgeError>)
    ensures
        result_text(r) == opening_text(option_str_text(first)),
{
    match Credential::intake(first) {
        Ok(credential) => Ok(credential.message()),
        Err(fault) => Err(fault),
    }
}

} // verus!
