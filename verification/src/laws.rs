//! What holds of the bridge whatever the input: laws over the decisions of
//! [`crate::bridge::transition`], each proved from the definitions.

use vstd::prelude::*;
use crate::bridge::{answering, halted, sending, silent, transition, Demand, Event, State, StepView};
use crate::command::{command_of, interpreted, CommandKind};
use crate::credential::{credential_document, credential_key};
use crate::error::BridgeError;
use crate::document::is_json;
use crate::json::{json_integer, json_member, json_string, json_text, parsed_json};
use crate::lines::blank;
use crate::reply::{acknowledged, reply_line};

verus! {

/// The lines that a step writes to the output: one or none.
pub open spec fn written(step: StepView) -> Seq<Seq<char>> {
    match step.output {
        Some(line) => seq![line],
        None => seq![],
    }
}

/// The handshake from the start: the credential line is read, the session
/// opened and the credential sent, and `reply` arrives. Gives the state that
/// is reached and all that was written on the way.
pub open spec fn handshake(line: String, reply: String) -> (State, Seq<Seq<char>>) {
    let first = transition(State::AwaitingCredential, Event::Line(line));
    let second = transition(first.state, Event::Sent);
    let third = transition(second.state, Event::Text(reply));
    (third.state, written(first) + written(second) + written(third))
}

/// One round trip from `state`: `line` is read, the request is sent, and
/// `reply` arrives. Gives the state that is reached and all that was written
/// on the way.
pub open spec fn round_trip(state: State, line: String, reply: String) -> (
    State,
    Seq<Seq<char>>,
) {
    let first = transition(state, Event::Line(line));
    let second = transition(first.state, Event::Sent);
    let third = transition(second.state, Event::Text(reply));
    (third.state, written(first) + written(second) + written(third))
}

/// With a credential line that holds a usable key, and a reply that
/// acknowledges it, the bridge presents the key, reaches the command loop,
/// and writes nothing for the handshake.
pub proof fn acknowledged_handshake_reaches_loop(line: String, reply: String)
    requires
        credential_key(line@) is Some,
        acknowledged(reply@),
    ensures
        transition(State::AwaitingCredential, Event::Line(line)) == sending(
            State::Opening,
            Demand::Open,
            json_text(credential_document(credential_key(line@).unwrap())),
        ),
        handshake(line, reply).0 == State::AwaitingLine,
        handshake(line, reply).1 == Seq::<Seq<char>>::empty(),
{
    assert(handshake(line, reply).1 =~= Seq::<Seq<char>>::empty());
}

/// A reply that does not acknowledge the credential, a message without
/// text, or the loss of the session in place of a reply, each ends the
/// bridge as rejected: nothing is written, no line of the command loop is
/// read.
pub proof fn unacknowledged_handshake_is_fatal(event: Event)
    requires
        match event {
            Event::Text(reply) => !acknowledged(reply@),
            Event::NonText => true,
            Event::Disconnected => true,
            _ => false,
        },
    ensures
        transition(State::AwaitingAcknowledgement, event) == halted(
            Some(BridgeError::AuthenticationRejected),
        ),
{
}

/// A line that is no JSON document, or a document without a member
/// `api_key`, holds no usable key.
pub proof fn unreadable_credential_has_no_key(line: Seq<char>)
    requires
        !is_json(line) || json_member(parsed_json(line).unwrap(), "api_key"@) is None,
    ensures
        credential_key(line) is None,
{
}

/// A credential line without a usable key ends the bridge as malformed
/// before any session is asked for: the demand is to stop, and nothing is
/// sent or written.
pub proof fn malformed_credential_opens_no_session(line: String)
    requires
        credential_key(line@) is None,
    ensures
        transition(State::AwaitingCredential, Event::Line(line)) == halted(
            Some(BridgeError::MalformedCredential),
        ),
        transition(State::AwaitingCredential, Event::Line(line)).demand != Demand::Open,
{
}

/// A command object without its optional fields is forwarded with the
/// defaults: `hcaptcha` as the type of a captcha, the empty string as site
/// key, target and solution, and zero as the task of a solution.
pub proof fn missing_fields_take_defaults(doc: serde_json::Value)
    ensures
        json_member(doc, "sitekey"@) is None ==> command_of(
            CommandKind::CreateTask,
            doc,
        ).members()[1] == ("sitekey"@, json_string(""@)),
        json_member(doc, "target_url"@) is None ==> command_of(
            CommandKind::CreateTask,
            doc,
        ).members()[2] == ("target_url"@, json_string(""@)),
        json_member(doc, "captcha_type"@) is None ==> command_of(
            CommandKind::CreateTask,
            doc,
        ).members()[3] == ("captcha_type"@, json_string("hcaptcha"@)),
        json_member(doc, "task_id"@) is None ==> command_of(
            CommandKind::SubmitSolution,
            doc,
        ).members()[1] == ("task_id"@, json_integer(0)),
        json_member(doc, "solution"@) is None ==> command_of(
            CommandKind::SubmitSolution,
            doc,
        ).members()[2] == ("solution"@, json_string(""@)),
        json_member(doc, "task_id"@) is None ==> command_of(
            CommandKind::GetTask,
            doc,
        ).members() == seq![("command"@, json_string("get_task"@))],
{
}

/// The request of every command carries the command's name first, and the
/// command that is made for a kind is of that kind.
pub proof fn request_names_its_command(kind: CommandKind, doc: serde_json::Value)
    ensures
        command_of(kind, doc).kind_of() == kind,
        command_of(kind, doc).members()[0] == ("command"@, json_string(kind.name_text())),
{
}

/// The dispatch table gives each command one name: looking up the name of
/// a command finds that command.
pub proof fn names_find_their_commands(kind: CommandKind)
    ensures
        CommandKind::named(kind.name_text()) == Some(kind),
{
    reveal_strlit("get_task");
    reveal_strlit("get_tasks");
    reveal_strlit("create_task");
    reveal_strlit("submit_solution");
    reveal_strlit("get_queue_count");
    assert("get_task"@.len() == 8);
    assert("get_tasks"@.len() == 9);
    assert("create_task"@.len() == 11);
    assert("submit_solution"@.len() == 15);
    assert("get_queue_count"@[0] == 'g');
    assert("submit_solution"@[0] == 's');
}

/// A line that is empty or white space only leads to no output and no
/// request: the bridge asks for the next line.
pub proof fn blank_line_is_skipped(line: String)
    requires
        blank(line@),
    ensures
        transition(State::AwaitingLine, Event::Line(line)) == silent(
            State::AwaitingLine,
            Demand::ReadLine,
            None,
        ),
{
}

/// A line of the command loop that asks for no command leads to no output
/// and no request, whatever it holds.
pub proof fn only_commands_are_forwarded(line: String)
    requires
        !(interpreted(line@) is Request),
    ensures
        transition(State::AwaitingLine, Event::Line(line)).state == State::AwaitingLine,
        transition(State::AwaitingLine, Event::Line(line)).demand == Demand::ReadLine,
        transition(State::AwaitingLine, Event::Line(line)).outgoing is None,
        transition(State::AwaitingLine, Event::Line(line)).output is None,
{
}

/// A reply that is a JSON document is written to the output as it came.
pub proof fn valid_reply_passes_through(reply: String)
    requires
        is_json(reply@),
    ensures
        transition(State::AwaitingReply, Event::Text(reply)) == answering(reply@),
{
}

/// For every line that asks for a command of the dispatch table, a round
/// trip writes one line, which depends on the reply alone, and leaves the
/// bridge where it was: ready for the next line. Where the reply is a JSON
/// document, that line is the reply itself.
pub proof fn round_trip_writes_the_reply(line: String, reply: String)
    requires
        interpreted(line@) is Request,
    ensures
        round_trip(State::AwaitingLine, line, reply) == (
            State::AwaitingLine,
            seq![reply_line(Some(reply@))],
        ),
        is_json(reply@) ==> round_trip(State::AwaitingLine, line, reply).1 == seq![reply@],
{
    assert(round_trip(State::AwaitingLine, line, reply).1 =~= seq![reply_line(Some(reply@))]);
}

/// The same command sent twice, with the same reply each time, writes the
/// same line twice.
pub proof fn repeated_round_trip_repeats_output(line: String, reply: String)
    requires
        interpreted(line@) is Request,
    ensures
        ({
            let first = round_trip(State::AwaitingLine, line, reply);
            let second = round_trip(first.0, line, reply);
            &&& second.1 == first.1
            &&& second.0 == first.0
            &&& first.1.len() == 1
        }),
{
    round_trip_writes_the_reply(line, reply);
}

/// No request is sent before the credential was acknowledged, and the only
/// way into the command loop is an acknowledging reply.
pub proof fn commands_need_authentication(state: State, event: Event)
    ensures
        transition(state, event).demand == Demand::Send ==> state.authenticated(),
        transition(state, event).state.authenticated() && !state.authenticated() ==> {
            &&& state == State::AwaitingAcknowledgement
            &&& event matches Event::Text(reply)
            &&& acknowledged(reply@)
        },
{
}

/// One command is under way at a time: a request is sent only while none is
/// under way, and a line is asked for only once none is.
pub proof fn one_command_in_flight(state: State, event: Event)
    ensures
        transition(state, event).demand == Demand::Send ==> !state.in_flight() && transition(
            state,
            event,
        ).state.in_flight(),
        transition(state, event).demand == Demand::ReadLine ==> !transition(
            state,
            event,
        ).state.in_flight(),
        transition(state, event).output is Some ==> state == State::AwaitingReply,
{
}

/// A step carries a message exactly where it opens the session or sends,
/// and it stops exactly where the bridge is closed. A closed bridge stays
/// closed.
pub proof fn steps_are_well_formed(state: State, event: Event)
    ensures
        transition(state, event).outgoing is Some <==> (transition(state, event).demand
            == Demand::Open || transition(state, event).demand == Demand::Send),
        transition(state, event).demand == Demand::Stop <==> transition(state, event).state
            == State::Closed,
        state == State::Closed ==> transition(state, event) == halted(None),
{
}

} // verus!
