use worker_bridge::error::BridgeError;
use worker_bridge::credential::opening_message;
use worker_bridge::one_shot::{report_exchange, report_fault, Report};
use worker_bridge::reply::{accepts_status, handshake_accepted, reply_output};

#[test]
fn request_carries_the_key() {
    assert_eq!(
        opening_message(Some("{\"api_key\":\"K\",\"command\":\"auth\"}")),
        Ok("{\"api_key\":\"K\"}".to_string())
    );
}

#[test]
fn request_needs_a_credential() {
    assert_eq!(opening_message(None), Err(BridgeError::MissingInput));
    assert_eq!(opening_message(Some("nonsense")), Err(BridgeError::MalformedCredential));
    assert_eq!(opening_message(Some("{\"command\":\"auth\"}")), Err(BridgeError::MalformedCredential));
}

#[test]
fn acknowledging_body_is_written_and_ends_well() {
    let body = "{ \"status\": \"ok\", \"token\": \"t\" }";
    assert_eq!(report_exchange(Some(body)), Report { line: body.to_string(), status: 0 });
}

#[test]
fn rejecting_body_is_written_as_it_came() {
    let body = "{\"status\":\"error\",\"message\":\"bad key\"}";
    assert_eq!(report_exchange(Some(body)), Report { line: body.to_string(), status: 1 });
}

#[test]
fn body_that_is_no_json_is_a_decode_error() {
    assert_eq!(
        report_exchange(Some("<html>")),
        Report { line: "{\"message\":\"bad_response\",\"status\":\"error\"}".to_string(), status: 1 }
    );
}

#[test]
fn missing_response_is_a_transport_error() {
    assert_eq!(
        report_exchange(None),
        Report { line: "{\"message\":\"network error\",\"status\":\"error\"}".to_string(), status: 1 }
    );
}

#[test]
fn faults_are_reported_as_error_objects() {
    assert_eq!(
        report_fault(BridgeError::MissingInput),
        Report { line: "{\"message\":\"no_input\",\"status\":\"error\"}".to_string(), status: 1 }
    );
    assert_eq!(
        report_fault(BridgeError::MalformedCredential),
        Report { line: "{\"message\":\"invalid_json\",\"status\":\"error\"}".to_string(), status: 1 }
    );
}

#[test]
fn only_ok_is_the_success_token() {
    assert!(accepts_status(Some("ok")));
    assert!(!accepts_status(Some("OK")));
    assert!(!accepts_status(Some("error")));
    assert!(!accepts_status(Some("")));
    assert!(!accepts_status(None));
}

#[test]
fn handshake_replies() {
    assert!(handshake_accepted("{\"status\":\"ok\"}"));
    assert!(handshake_accepted("{\"message\":\"welcome\",\"status\":\"ok\"}"));
    assert!(!handshake_accepted("{\"status\":\"error\",\"message\":\"bad key\"}"));
    assert!(!handshake_accepted("{\"status\":true}"));
    assert!(!handshake_accepted("{}"));
    assert!(!handshake_accepted("\"ok\""));
    assert!(!handshake_accepted("ok"));
    assert!(!handshake_accepted(""));
}

#[test]
fn valid_reply_is_passed_through() {
    let reply = "{ \"count\" : 3 }";
    assert_eq!(reply_output(Some(reply)), reply);
}

#[test]
fn invalid_reply_becomes_an_error_object() {
    assert_eq!(
        reply_output(Some("pong")),
        "{\"message\":\"invalid response format\",\"status\":\"error\"}"
    );
}

#[test]
fn message_without_text_becomes_an_error_object() {
    assert_eq!(reply_output(None), "{\"message\":\"no response from server\",\"status\":\"error\"}");
}
