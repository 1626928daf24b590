use worker_bridge::credential::Credential;
use worker_bridge::error::{error_line, error_object, BridgeError};

#[test]
fn credential_line_gives_key() {
    let c = Credential::parse("{\"api_key\":\"K\"}").unwrap();
    assert_eq!(c.api_key, "K");
    assert_eq!(c.mode, None);
}

#[test]
fn credential_line_keeps_mode_selector() {
    let c = Credential::parse(" {\"command\":\"auth\",\"api_key\":\"secret key\",\"x\":1} ").unwrap();
    assert_eq!(c.api_key, "secret key");
    assert_eq!(c.mode, Some("auth".to_string()));
}

#[test]
fn credential_that_is_no_json_is_malformed() {
    assert_eq!(Credential::parse("not json"), Err(BridgeError::MalformedCredential));
    assert_eq!(Credential::parse(""), Err(BridgeError::MalformedCredential));
    assert_eq!(Credential::parse("{\"api_key\":\"K\""), Err(BridgeError::MalformedCredential));
}

#[test]
fn credential_without_key_is_malformed() {
    assert_eq!(Credential::parse("{}"), Err(BridgeError::MalformedCredential));
    assert_eq!(Credential::parse("{\"key\":\"K\"}"), Err(BridgeError::MalformedCredential));
    assert_eq!(Credential::parse("[\"K\"]"), Err(BridgeError::MalformedCredential));
}

#[test]
fn credential_with_empty_or_other_key_is_malformed() {
    assert_eq!(Credential::parse("{\"api_key\":\"\"}"), Err(BridgeError::MalformedCredential));
    assert_eq!(Credential::parse("{\"api_key\":7}"), Err(BridgeError::MalformedCredential));
    assert_eq!(Credential::parse("{\"api_key\":null}"), Err(BridgeError::MalformedCredential));
}

#[test]
fn credential_from_fields() {
    let c = Credential::from_fields(Some("K"), Some("auth")).unwrap();
    assert_eq!(c, Credential { api_key: "K".to_string(), mode: Some("auth".to_string()) });
    assert_eq!(Credential::from_fields(None, Some("auth")), Err(BridgeError::MalformedCredential));
    assert_eq!(Credential::from_fields(Some(""), None), Err(BridgeError::MalformedCredential));
}

#[test]
fn intake_without_line_is_missing_input() {
    assert_eq!(Credential::intake(None), Err(BridgeError::MissingInput));
}

#[test]
fn intake_with_line_reads_it() {
    assert_eq!(Credential::intake(Some("{\"api_key\":\"K\"}")).unwrap().api_key, "K");
    assert_eq!(Credential::intake(Some("oops")), Err(BridgeError::MalformedCredential));
}

#[test]
fn credential_message_is_the_key_object() {
    let c = Credential { api_key: "K".to_string(), mode: Some("auth".to_string()) };
    assert_eq!(c.message(), "{\"api_key\":\"K\"}");
}

#[test]
fn credential_message_escapes_the_key() {
    let c = Credential::parse("{\"api_key\":\"a\\\"b\\\\c\\n\"}").unwrap();
    assert_eq!(c.api_key, "a\"b\\c\n");
    assert_eq!(c.message(), "{\"api_key\":\"a\\\"b\\\\c\\n\"}");
}

#[test]
fn error_object_has_the_fixed_shape() {
    let line = error_object(BridgeError::EmptyResponse);
    let doc: serde_json::Value = serde_json::from_str(&line).unwrap();
    assert_eq!(doc.get("status").and_then(|v| v.as_str()), Some("error"));
    assert_eq!(doc.get("message").and_then(|v| v.as_str()), Some("no response from server"));
    assert_eq!(doc.as_object().unwrap().len(), 2);
}

#[test]
fn error_object_text() {
    assert_eq!(
        error_object(BridgeError::InvalidServerResponse),
        "{\"message\":\"invalid response format\",\"status\":\"error\"}"
    );
    assert_eq!(error_line("a \"b\""), "{\"message\":\"a \\\"b\\\"\",\"status\":\"error\"}");
}

#[test]
fn every_fault_has_its_message() {
    assert_eq!(BridgeError::MissingInput.message(), "no_input");
    assert_eq!(BridgeError::MalformedCredential.message(), "invalid_json");
    assert_eq!(BridgeError::TransportError.message(), "network error");
    assert_eq!(BridgeError::AuthenticationRejected.message(), "authentication rejected");
    assert_eq!(BridgeError::DecodeError.message(), "bad_response");
    assert_eq!(BridgeError::InvalidServerResponse.message(), "invalid response format");
    assert_eq!(BridgeError::UnrecognizedCommand.message(), "unknown command");
    assert_eq!(BridgeError::EmptyResponse.message(), "no response from server");
    assert_eq!(BridgeError::MalformedCommand.message(), "invalid command line");
}
