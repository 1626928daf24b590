//! The session mode as a state machine.
//!
//! The program that drives the bridge reads lines, talks to the remote
//! service and writes output. After each piece of that work it hands the
//! outcome to [`step`] as an [`Event`], and gets back a [`Step`]: the next
//! state, what to write, and what to do next. One command is under way at a
//! time: a line is asked for only when the reply to the last request was
//! dealt with.

use vstd::prelude::*;
use crate::command::{interpret_line, interpreted, LineOutcome};
use crate::credential::{opening_message, opening_text};
use crate::error::BridgeError;
use crate::json::json_text;
use crate::reply::{acknowledged, handshake_accepted, reply_line, reply_output};
use crate::text::{option_text, result_text};

verus! {

/// Where the bridge stands.
#[derive(Clone, Copy, Debug, PartialEq, Eq, Structural)]
pub enum State {
    /// Nothing was read yet: the credential line is awaited.
    AwaitingCredential,
    /// The session is being opened and the credential sent.
    Opening,
    /// The credential was sent: the acknowledgement is awaited.
    AwaitingAcknowledgement,
    /// Authenticated, no command under way: a line is awaited.
    AwaitingLine,
    /// A request is being sent.
    Dispatching,
    /// A request was sent: its reply is awaited.
    AwaitingReply,
    /// The end: nothing more is read, sent or written.
    Closed,
}

impl State {
    /// Whether the remote service has acknowledged the credential.
    pub open spec fn authenticated(self) -> bool {
        self == State::AwaitingLine || self == State::Dispatching || self == State::AwaitingReply
    }

    /// Whether a command is under way.
    pub open spec fn in_flight(self) -> bool {
        self == State::Dispatching || self == State::AwaitingReply
    }

    /// The state in which a bridge starts.
    pub fn initial() -> (s: State)
        ensures
            s == State::AwaitingCredential,
    {
        State::AwaitingCredential
    }

    /// Tells whether the remote service has acknowledged the credential.
    pub fn is_authenticated(&self) -> (b: bool)
        ensures
            b == self.authenticated(),
    {
        match self {
            State::AwaitingLine => true,
            State::Dispatching => true,
            State::AwaitingReply => true,
            _ => false,
        }
    }

    /// Tells whether the bridge has come to its end.
    pub fn is_closed(&self) -> (b: bool)
        ensures
            b == (*self == State::Closed),
    {
        match self {
            State::Closed => true,
            _ => false,
        }
    }
}

/// The outcome of a piece of outside work.
#[derive(Clone, Debug, PartialEq, Eq)]
pub enum Event {
    /// A line was read from the input.
    Line(String),
    /// The input has ended.
    EndOfInput,
    /// The session could not be opened.
    ConnectFailed,
    /// The message was sent.
    Sent,
    /// The message could not be sent.
    SendFailed,
    /// A text message arrived.
    Text(String),
    /// A message arrived that carries no text.
    NonText,
    /// The session failed or was closed by the other side.
    Disconnected,
}

/// The outside work that the bridge asks for next.
#[derive(Clone, Copy, Debug, PartialEq, Eq, Structural)]
pub enum Demand {
    /// Read the next input line.
    ReadLine,
    /// Open the session and send the outgoing message as its first.
    Open,
    /// Send the outgoing message over the session.
    Send,
    /// Wait for one message from the session.
    Receive,
    /// Release the session, if there is one, and end.
    Stop,
}

/// What the bridge decided on an event.
#[derive(Clone, Debug, PartialEq, Eq)]
pub struct Step {
    /// The state after the event.
    pub state: State,
    /// The outside work to do next.
    pub demand: Demand,
    /// The message to send: present exactly where the demand is to open the
    /// session or to send.
    pub outgoing: Option<String>,
    /// The line to write to the output before anything else is done.
    pub output: Option<String>,
    /// The fault to tell the operator of, outside the output.
    pub diagnostic: Option<BridgeError>,
}

/// A [`Step`] with its strings as text.
pub struct StepView {
    pub state: State,
    pub demand: Demand,
    pub outgoing: Option<Seq<char>>,
    pub output: Option<Seq<char>>,
    pub diagnostic: Option<BridgeError>,
}

impl View for Step {
    type V = StepView;

    open spec fn view(&self) -> StepView {
        StepView {
            state: self.state,
            demand: self.demand,
            outgoing: option_text(self.outgoing),
            output: option_text(self.output),
            diagnostic: self.diagnostic,
        }
    }
}

/// The step that ends the bridge, with or without a fault to tell of.
pub open spec fn halted(diagnostic: Option<BridgeError>) -> StepView {
    StepView {
        state: State::Closed,
        demand: Demand::Stop,
        outgoing: None,
        output: None,
        diagnostic,
    }
}

/// The step that goes on to `state` and `demand` and neither sends nor writes.
pub open spec fn silent(state: State, demand: Demand, diagnostic: Option<BridgeError>) -> StepView {
    StepView { state, demand, outgoing: None, output: None, diagnostic }
}

/// The step that sends `message` with `demand` and goes on to `state`.
pub open spec fn sending(state: State, demand: Demand, message: Seq<char>) -> StepView {
    StepView { state, demand, outgoing: Some(message), output: None, diagnostic: None }
}

/// The step that writes `line` and asks for the next input line.
pub open spec fn answering(line: Seq<char>) -> StepView {
    StepView {
        state: State::AwaitingLine,
        demand: Demand::ReadLine,
        outgoing: None,
        output: Some(line),
        diagnostic: None,
    }
}

/// The step on the credential: with the message that presents it, the
/// session is opened and the message sent; with a fault, the bridge ends.
pub open spec fn credential_outcome(message: Result<Seq<char>, BridgeError>) -> StepView {
    match message {
        Ok(text) => sending(State::Opening, Demand::Open, text),
        Err(fault) => halted(Some(fault)),
    }
}

/// What the bridge does with the credential line, or with the end of the
/// input in its place.
pub open spec fn on_credential(event: Event) -> StepView {
    match event {
        Event::Line(line) => credential_outcome(opening_text(Some(line@))),
        Event::EndOfInput => credential_outcome(opening_text(None)),
        _ => halted(None),
    }
}

/// What the bridge does once the session was opened and the credential sent,
/// or could not be.
pub open spec fn on_opening(event: Event) -> StepView {
    match event {
        Event::Sent => silent(State::AwaitingAcknowledgement, Demand::Receive, None),
        Event::ConnectFailed => halted(Some(BridgeError::TransportError)),
        Event::SendFailed => halted(Some(BridgeError::TransportError)),
        Event::Disconnected => halted(Some(BridgeError::TransportError)),
        _ => halted(None),
    }
}

/// The step on the reply to the credential: the command loop begins where
/// it was accepted, and the bridge ends as rejected where it was not.
pub open spec fn acknowledgement_outcome(accepted: bool) -> StepView {
    if accepted {
        silent(State::AwaitingLine, Demand::ReadLine, None)
    } else {
        halted(Some(BridgeError::AuthenticationRejected))
    }
}

/// What the bridge does with the reply to the credential. Anything but an
/// acknowledgement ends it.
pub open spec fn on_acknowledgement(event: Event) -> StepView {
    match event {
        Event::Text(reply) => acknowledgement_outcome(acknowledged(reply@)),
        Event::NonText => acknowledgement_outcome(false),
        Event::Disconnected => acknowledgement_outcome(false),
        _ => halted(None),
    }
}

/// The step on a line of the command loop, once it was read. Only a line
/// that asks for a command of the dispatch table leads to a request; the
/// others are skipped without output.
pub open spec fn line_outcome(outcome: LineOutcome) -> StepView {
    match outcome {
        LineOutcome::Blank => silent(State::AwaitingLine, Demand::ReadLine, None),
        LineOutcome::Malformed => silent(
            State::AwaitingLine,
            Demand::ReadLine,
            Some(BridgeError::MalformedCommand),
        ),
        LineOutcome::Unrecognized => silent(
            State::AwaitingLine,
            Demand::ReadLine,
            Some(BridgeError::UnrecognizedCommand),
        ),
        LineOutcome::Request(command) => sending(
            State::Dispatching,
            Demand::Send,
            json_text(command.document()),
        ),
    }
}

/// What the bridge does with a line of the command loop.
pub open spec fn on_line(event: Event) -> StepView {
    match event {
        Event::Line(line) => line_outcome(interpreted(line@)),
        _ => halted(None),
    }
}

/// What the bridge does once a request was sent, or could not be.
pub open spec fn on_dispatch(event: Event) -> StepView {
    match event {
        Event::Sent => silent(State::AwaitingReply, Demand::Receive, None),
        Event::SendFailed => halted(Some(BridgeError::TransportError)),
        Event::Disconnected => halted(Some(BridgeError::TransportError)),
        _ => halted(None),
    }
}

/// What the bridge does with the reply to a request.
pub open spec fn on_reply(event: Event) -> StepView {
    match event {
        Event::Text(reply) => answering(reply_line(Some(reply@))),
        Event::NonText => answering(reply_line(None)),
        Event::Disconnected => halted(Some(BridgeError::TransportError)),
        _ => halted(None),
    }
}

/// The decision of the bridge in `state` on `event`. An event that the state
/// does not wait for ends the bridge.
pub open spec fn transition(state: State, event: Event) -> StepView {
    match state {
        State::AwaitingCredential => on_credential(event),
        State::Opening => on_opening(event),
        State::AwaitingAcknowledgement => on_acknowledgement(event),
        State::AwaitingLine => on_line(event),
        State::Dispatching => on_dispatch(event),
        State::AwaitingReply => on_reply(event),
        State::Closed => halted(None),
    }
}

/// Makes the step that ends the bridge.
fn halt(diagnostic: Option<BridgeError>) -> (r: Step)
    ensures
        r@ == halted(diagnostic),
{
    Step { state: State::Closed, demand: Demand::Stop, outgoing: None, output: None, diagnostic }
}

/// Makes a step that neither sends nor writes.
fn go_on(state: State, demand: Demand, diagnostic: Option<BridgeError>) -> (r: Step)
    ensures
        r@ == silent(state, demand, diagnostic),
{
    Step { state, demand, outgoing: None, output: None, diagnostic }
}

/// Makes a step that sends `message`.
fn send(state: State, demand: Demand, message: String) -> (r: Step)
    ensures
        r@ == sending(state, demand, message@),
{
    Step { state, demand, outgoing: Some(message), output: None, diagnostic: None }
}

/// Decides on the credential, given the message that presents it or the
/// fault that was found.
pub fn credential_step(message: Result<String, BridgeError>) -> (r: Step)
    ensures
        r@ == credential_outcome(result_text(message)),
{
    match message {
        Ok(text) => send(State::Opening, Demand::Open, text),
        Err(fault) => halt(Some(fault)),
    }
}

/// Decides on the reply to the credential, given whether it was accepted.
pub fn acknowledgement_step(accepted: bool) -> (r: Step)
    ensures
        r@ == acknowledgement_outcome(accepted),
{
    if accepted {
        go_on(State::AwaitingLine, Demand::ReadLine, None)
    } else {
        halt(Some(BridgeError::AuthenticationRejected))
    }
}

/// Decides on a line of the command loop, given what it amounts to.
pub fn line_step(outcome: &LineOutcome) -> (r: Step)
    ensures
        r@ == line_outcome(*outcome),
{
    match outcome {
        LineOutcome::Blank => go_on(State::AwaitingLine, Demand::ReadLine, None),
        LineOutcome::Malformed => go_on(
            State::AwaitingLine,
            Demand::ReadLine,
            Some(BridgeError::MalformedCommand),
        ),
        LineOutcome::Unrecognized => go_on(
            State::AwaitingLine,
            Demand::ReadLine,
            Some(BridgeError::UnrecognizedCommand),
        ),
        LineOutcome::Request(command) => send(State::Dispatching, Demand::Send, command.request()),
    }
}

/// Decides on the reply to a request, given the line to write for it.
pub fn reply_step(line: String) -> (r: Step)
    ensures
        r@ == answering(line@),
{
    Step {
        state: State::AwaitingLine,
        demand: Demand::ReadLine,
        outgoing: None,
        output: Some(line),
        diagnostic: None,
    }
}

/// Decides what the bridge does in `state` on `event`.
pub fn step(state: State, event: &Event) -> (r: Step)
    ensures
        r@ == transition(state, *event),
{
    match state {
        State::AwaitingCredential => match event {
            Event::Line(line) => credential_step(opening_message(Some(line.as_str()))),
            Event::EndOfInput => credential_step(opening_message(None)),
            _ => halt(None),
        },
        State::Opening => match event {
            Event::Sent => go_on(State::AwaitingAcknowledgement, Demand::Receive, None),
            Event::ConnectFailed => halt(Some(BridgeError::TransportError)),
            Event::SendFailed => halt(Some(BridgeError::TransportError)),
            Event::Disconnected => halt(Some(BridgeError::TransportError)),
            _ => halt(None),
        },
        State::AwaitingAcknowledgement => match event {
            Event::Text(reply) => acknowledgement_step(handshake_accepted(reply.as_str())),
            Event::NonText => acknowledgement_step(false),
            Event::Disconnected => acknowledgement_step(false),
            _ => halt(None),
        },
        State::AwaitingLine => match event {
            Event::Line(line) => {
                let outcome = interpret_line(line.as_str());
                line_step(&outcome)
            },
            _ => halt(None),
        },
        State::Dispatching => match event {
            Event::Sent => go_on(State::AwaitingReply, Demand::Receive, None),
            Event::SendFailed => halt(Some(BridgeError::TransportError)),
            Event::Disconnected => halt(Some(BridgeError::TransportError)),
            _ => halt(None),
        },
        State::AwaitingReply => match event {
            Event::Text(reply) => reply_step(reply_output(Some(reply.as_str()))),
            Event::NonText => reply_step(reply_output(None)),
            Event::Disconnected => halt(Some(BridgeError::TransportError)),
            _ => halt(None),
        },
        State::Closed => halt(None),
    }
}

} // verus!
