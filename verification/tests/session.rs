use worker_bridge::bridge::{
    acknowledgement_step, credential_step, line_step, reply_step, step, Demand, Event, State, Step,
};
use worker_bridge::command::{Command, LineOutcome};
use worker_bridge::error::BridgeError;

struct Trace {
    state: State,
    sent: Vec<String>,
    output: Vec<String>,
    diagnostics: Vec<BridgeError>,
    lines_read: usize,
}

/// Drives the bridge over the given input lines against a session that
/// accepts every message and answers with the given replies in turn, `None`
/// standing for a message without text; after the last one it is gone.
fn drive(lines: &[&str], replies: &[Option<&str>]) -> Trace {
    let mut trace = Trace {
        state: State::initial(),
        sent: Vec::new(),
        output: Vec::new(),
        diagnostics: Vec::new(),
        lines_read: 0,
    };
    let mut demand = Demand::ReadLine;
    let mut received = 0;
    loop {
        let event = match demand {
            Demand::ReadLine => {
                if trace.lines_read < lines.len() {
                    trace.lines_read += 1;
                    Event::Line(lines[trace.lines_read - 1].to_string())
                } else {
                    Event::EndOfInput
                }
            }
            Demand::Open | Demand::Send => Event::Sent,
            Demand::Receive => {
                if received < replies.len() {
                    received += 1;
                    match replies[received - 1] {
                        Some(text) => Event::Text(text.to_string()),
                        None => Event::NonText,
                    }
                } else {
                    Event::Disconnected
                }
            }
            Demand::Stop => break,
        };
        let taken = step(trace.state, &event);
        assert_eq!(taken.outgoing.is_some(), matches!(taken.demand, Demand::Open | Demand::Send));
        if let Some(message) = taken.outgoing {
            trace.sent.push(message);
        }
        if let Some(line) = taken.output {
            trace.output.push(line);
        }
        if let Some(fault) = taken.diagnostic {
            trace.diagnostics.push(fault);
        }
        trace.state = taken.state;
        demand = taken.demand;
    }
    trace
}

fn halted(diagnostic: Option<BridgeError>) -> Step {
    Step { state: State::Closed, demand: Demand::Stop, outgoing: None, output: None, diagnostic }
}

#[test]
fn round_trip_writes_the_task() {
    let task = "{\"url\":\"https://x\",\"sitekey\":\"s\",\"type\":\"hcaptcha\"}";
    let trace = drive(
        &["{\"api_key\":\"K\"}", "{\"command\":\"get_task\"}"],
        &[Some("{\"status\":\"ok\"}"), Some(task)],
    );
    assert_eq!(trace.output, vec![task.to_string()]);
    assert_eq!(trace.sent, vec!["{\"api_key\":\"K\"}".to_string(), "{\"command\":\"get_task\"}".to_string()]);
    assert_eq!(trace.diagnostics, vec![]);
    assert_eq!(trace.state, State::Closed);
}

#[test]
fn silent_session_is_rejected() {
    let trace = drive(&["{\"api_key\":\"K\"}", "{\"command\":\"get_task\"}"], &[]);
    assert_eq!(trace.diagnostics, vec![BridgeError::AuthenticationRejected]);
    assert_eq!(trace.output, Vec::<String>::new());
    assert_eq!(trace.sent, vec!["{\"api_key\":\"K\"}".to_string()]);
    assert_eq!(trace.lines_read, 1);
    assert_eq!(trace.state, State::Closed);
}

#[test]
fn refused_key_is_rejected() {
    let trace = drive(
        &["{\"api_key\":\"K\"}", "{\"command\":\"get_task\"}"],
        &[Some("{\"status\":\"error\",\"message\":\"bad key\"}"), Some("{}")],
    );
    assert_eq!(trace.diagnostics, vec![BridgeError::AuthenticationRejected]);
    assert_eq!(trace.output, Vec::<String>::new());
    assert_eq!(trace.lines_read, 1);
}

#[test]
fn handshake_reply_without_text_is_rejected() {
    let trace = drive(&["{\"api_key\":\"K\"}"], &[None]);
    assert_eq!(trace.diagnostics, vec![BridgeError::AuthenticationRejected]);
    assert_eq!(trace.output, Vec::<String>::new());
}

#[test]
fn same_command_twice_gives_same_line_twice() {
    let trace = drive(
        &["{\"api_key\":\"K\"}", "{\"command\":\"get_queue_count\"}", "{\"command\":\"get_queue_count\"}"],
        &[Some("{\"status\":\"ok\"}"), Some("{\"count\":4}"), Some("{\"count\":4}")],
    );
    assert_eq!(trace.output, vec!["{\"count\":4}".to_string(), "{\"count\":4}".to_string()]);
    assert_eq!(
        trace.sent[1..],
        ["{\"command\":\"get_queue_count\"}".to_string(), "{\"command\":\"get_queue_count\"}".to_string()]
    );
}

#[test]
fn handshake_writes_nothing() {
    let trace = drive(&["{\"api_key\":\"K\"}"], &[Some("{\"status\":\"ok\"}")]);
    assert_eq!(trace.output, Vec::<String>::new());
    assert_eq!(trace.diagnostics, vec![]);
    assert_eq!(trace.lines_read, 1);
    let ready = step(State::AwaitingAcknowledgement, &Event::Text("{\"status\":\"ok\"}".to_string()));
    assert_eq!(
        ready,
        Step {
            state: State::AwaitingLine,
            demand: Demand::ReadLine,
            outgoing: None,
            output: None,
            diagnostic: None,
        }
    );
}

#[test]
fn missing_credential_ends_at_once() {
    let trace = drive(&[], &[Some("{\"status\":\"ok\"}")]);
    assert_eq!(trace.diagnostics, vec![BridgeError::MissingInput]);
    assert_eq!(trace.sent, Vec::<String>::new());
    assert_eq!(trace.output, Vec::<String>::new());
}

#[test]
fn malformed_credential_opens_no_session() {
    for line in ["garbage", "{}", "{\"api_key\":\"\"}", ""] {
        let taken = step(State::AwaitingCredential, &Event::Line(line.to_string()));
        assert_eq!(taken, halted(Some(BridgeError::MalformedCredential)));
    }
    let trace = drive(&["{\"key\":1}", "{\"command\":\"get_task\"}"], &[Some("{\"status\":\"ok\"}")]);
    assert_eq!(trace.sent, Vec::<String>::new());
    assert_eq!(trace.lines_read, 1);
}

#[test]
fn blank_lines_are_skipped() {
    let trace = drive(
        &["{\"api_key\":\"K\"}", "", "   ", "\t", "{\"command\":\"get_tasks\"}"],
        &[Some("{\"status\":\"ok\"}"), Some("[]")],
    );
    assert_eq!(trace.output, vec!["[]".to_string()]);
    assert_eq!(trace.sent.len(), 2);
    assert_eq!(trace.diagnostics, vec![]);
    let skipped = step(State::AwaitingLine, &Event::Line("  ".to_string()));
    assert_eq!(
        skipped,
        Step {
            state: State::AwaitingLine,
            demand: Demand::ReadLine,
            outgoing: None,
            output: None,
            diagnostic: None,
        }
    );
}

#[test]
fn bad_lines_are_dropped_with_a_diagnostic() {
    let trace = drive(
        &["{\"api_key\":\"K\"}", "{oops", "{\"command\":\"dance\"}", "{\"x\":1}", "{\"command\":\"get_tasks\"}"],
        &[Some("{\"status\":\"ok\"}"), Some("[1]")],
    );
    assert_eq!(
        trace.diagnostics,
        vec![
            BridgeError::MalformedCommand,
            BridgeError::UnrecognizedCommand,
            BridgeError::UnrecognizedCommand
        ]
    );
    assert_eq!(trace.output, vec!["[1]".to_string()]);
    assert_eq!(trace.sent.len(), 2);
}

#[test]
fn create_task_is_forwarded_with_defaults() {
    let trace = drive(
        &["{\"api_key\":\"K\"}", "{\"command\":\"create_task\",\"sitekey\":\"s\"}"],
        &[Some("{\"status\":\"ok\"}"), Some("{\"task_id\":1}")],
    );
    assert_eq!(
        trace.sent[1],
        "{\"captcha_type\":\"hcaptcha\",\"command\":\"create_task\",\"sitekey\":\"s\",\"target_url\":\"\"}"
    );
    assert_eq!(trace.output, vec!["{\"task_id\":1}".to_string()]);
}

#[test]
fn reply_is_passed_through_byte_for_byte() {
    let reply = "  { \"b\" : 1,\t\"a\" : [ 1.50, \"\\u00e9\" ] }  ";
    let taken = step(State::AwaitingReply, &Event::Text(reply.to_string()));
    assert_eq!(taken.output, Some(reply.to_string()));
    assert_eq!(taken.state, State::AwaitingLine);
    assert_eq!(taken.demand, Demand::ReadLine);
}

#[test]
fn invalid_and_empty_replies_become_error_objects() {
    let trace = drive(
        &["{\"api_key\":\"K\"}", "{\"command\":\"get_task\"}", "{\"command\":\"get_task\"}", "{\"command\":\"get_task\"}"],
        &[Some("{\"status\":\"ok\"}"), Some("not json"), None, Some("{\"t\":1}")],
    );
    assert_eq!(
        trace.output,
        vec![
            "{\"message\":\"invalid response format\",\"status\":\"error\"}".to_string(),
            "{\"message\":\"no response from server\",\"status\":\"error\"}".to_string(),
            "{\"t\":1}".to_string(),
        ]
    );
    assert_eq!(trace.diagnostics, vec![]);
}

#[test]
fn lost_session_ends_the_loop() {
    let trace = drive(
        &["{\"api_key\":\"K\"}", "{\"command\":\"get_task\"}", "{\"command\":\"get_task\"}"],
        &[Some("{\"status\":\"ok\"}")],
    );
    assert_eq!(trace.diagnostics, vec![BridgeError::TransportError]);
    assert_eq!(trace.output, Vec::<String>::new());
    assert_eq!(trace.lines_read, 2);
    assert_eq!(trace.state, State::Closed);
}

#[test]
fn failed_send_ends_the_loop_without_output() {
    assert_eq!(step(State::Dispatching, &Event::SendFailed), halted(Some(BridgeError::TransportError)));
    assert_eq!(step(State::Opening, &Event::SendFailed), halted(Some(BridgeError::TransportError)));
    assert_eq!(step(State::Opening, &Event::ConnectFailed), halted(Some(BridgeError::TransportError)));
}

#[test]
fn sent_messages_are_followed_by_a_wait() {
    let opened = step(State::Opening, &Event::Sent);
    assert_eq!(opened.state, State::AwaitingAcknowledgement);
    assert_eq!(opened.demand, Demand::Receive);
    let sent = step(State::Dispatching, &Event::Sent);
    assert_eq!(sent.state, State::AwaitingReply);
    assert_eq!(sent.demand, Demand::Receive);
}

#[test]
fn end_of_input_closes_quietly() {
    assert_eq!(step(State::AwaitingLine, &Event::EndOfInput), halted(None));
}

#[test]
fn authenticated_only_after_the_acknowledgement() {
    assert!(!State::AwaitingCredential.is_authenticated());
    assert!(!State::Opening.is_authenticated());
    assert!(!State::AwaitingAcknowledgement.is_authenticated());
    assert!(State::AwaitingLine.is_authenticated());
    assert!(State::Dispatching.is_authenticated());
    assert!(State::AwaitingReply.is_authenticated());
    assert!(!State::Closed.is_authenticated());
}

#[test]
fn closed_stays_closed() {
    assert!(State::Closed.is_closed());
    assert!(!State::initial().is_closed());
    assert_eq!(step(State::Closed, &Event::Line("{\"command\":\"get_task\"}".to_string())), halted(None));
    assert_eq!(step(State::Closed, &Event::Sent), halted(None));
}

#[test]
fn unexpected_events_close_the_bridge() {
    assert_eq!(step(State::AwaitingReply, &Event::Line("{\"command\":\"get_task\"}".to_string())), halted(None));
    assert_eq!(step(State::AwaitingLine, &Event::Text("{}".to_string())), halted(None));
    assert_eq!(step(State::AwaitingCredential, &Event::Sent), halted(None));
}

#[test]
fn credential_step_opens_or_ends() {
    assert_eq!(
        credential_step(Ok("{\"api_key\":\"K\"}".to_string())),
        Step {
            state: State::Opening,
            demand: Demand::Open,
            outgoing: Some("{\"api_key\":\"K\"}".to_string()),
            output: None,
            diagnostic: None,
        }
    );
    assert_eq!(credential_step(Err(BridgeError::MissingInput)), halted(Some(BridgeError::MissingInput)));
    assert_eq!(
        credential_step(Err(BridgeError::MalformedCredential)),
        halted(Some(BridgeError::MalformedCredential))
    );
}

#[test]
fn acknowledgement_step_begins_the_loop_or_ends() {
    let begun = acknowledgement_step(true);
    assert_eq!(begun.state, State::AwaitingLine);
    assert_eq!(begun.demand, Demand::ReadLine);
    assert_eq!(begun.output, None);
    assert_eq!(acknowledgement_step(false), halted(Some(BridgeError::AuthenticationRejected)));
}

#[test]
fn line_step_sends_requests_only() {
    let sent = line_step(&LineOutcome::Request(Command::GetTasks));
    assert_eq!(
        sent,
        Step {
            state: State::Dispatching,
            demand: Demand::Send,
            outgoing: Some("{\"command\":\"get_tasks\"}".to_string()),
            output: None,
            diagnostic: None,
        }
    );
    for (outcome, fault) in [
        (LineOutcome::Blank, None),
        (LineOutcome::Malformed, Some(BridgeError::MalformedCommand)),
        (LineOutcome::Unrecognized, Some(BridgeError::UnrecognizedCommand)),
    ] {
        assert_eq!(
            line_step(&outcome),
            Step {
                state: State::AwaitingLine,
                demand: Demand::ReadLine,
                outgoing: None,
                output: None,
                diagnostic: fault,
            }
        );
    }
}

#[test]
fn reply_step_writes_the_line() {
    assert_eq!(
        reply_step("{\"count\":1}".to_string()),
        Step {
            state: State::AwaitingLine,
            demand: Demand::ReadLine,
            outgoing: None,
            output: Some("{\"count\":1}".to_string()),
            diagnostic: None,
        }
    );
}
