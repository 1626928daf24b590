//! The dispatch table: the commands of an input line and the request that is
//! forwarded for each.

use vstd::prelude::*;
use crate::document::{text_member, text_member_of};
use crate::json::{integer_value, json_integer, json_member, json_object, json_string, json_text, member, member_views, object_value, parse, parsed_json, render, string_value};
use crate::lines::{blank, is_blank};
use crate::text::same_text;

verus! {

/// The commands that the remote service knows.
#[derive(Clone, Copy, Debug, PartialEq, Eq, Structural)]
pub enum CommandKind {
    GetTask,
    GetTasks,
    CreateTask,
    SubmitSolution,
    GetQueueCount,
}

impl CommandKind {
    /// The name of the command on the wire.
    pub open spec fn name_text(self) -> Seq<char> {
        match self {
            CommandKind::GetTask => "get_task"@,
            CommandKind::GetTasks => "get_tasks"@,
            CommandKind::CreateTask => "create_task"@,
            CommandKind::SubmitSolution => "submit_solution"@,
            CommandKind::GetQueueCount => "get_queue_count"@,
        }
    }

    /// The command that a name stands for, if it stands for one.
    pub open spec fn named(name: Seq<char>) -> Option<CommandKind> {
        if name == "get_task"@ {
            Some(CommandKind::GetTask)
        } else if name == "get_tasks"@ {
            Some(CommandKind::GetTasks)
        } else if name == "create_task"@ {
            Some(CommandKind::CreateTask)
        } else if name == "submit_solution"@ {
            Some(CommandKind::SubmitSolution)
        } else if name == "get_queue_count"@ {
            Some(CommandKind::GetQueueCount)
        } else {
            None
        }
    }

    /// The name of the command on the wire.
    pub fn name(&self) -> (s: &'static str)
        ensures
            s@ == self.name_text(),
    {
        match self {
            CommandKind::GetTask => "get_task",
            CommandKind::GetTasks => "get_tasks",
            CommandKind::CreateTask => "create_task",
            CommandKind::SubmitSolution => "submit_solution",
            CommandKind::GetQueueCount => "get_queue_count",
        }
    }

    /// Looks a name up in the dispatch table.
    pub fn from_name(name: &str) -> (r: Option<CommandKind>)
        ensures
            r == CommandKind::named(name@),
    {
        if same_text(name, "get_task") {
            Some(CommandKind::GetTask)
        } else if same_text(name, "get_tasks") {
            Some(CommandKind::GetTasks)
        } else if same_text(name, "create_task") {
            Some(CommandKind::CreateTask)
        } else if same_text(name, "submit_solution") {
            Some(CommandKind::SubmitSolution)
        } else if same_text(name, "get_queue_count") {
            Some(CommandKind::GetQueueCount)
        } else {
            None
        }
    }
}

/// One request of the operator, with the fields that are forwarded.
#[derive(Clone, Debug, PartialEq, Eq)]
#[allow(inconsistent_fields)]
pub enum Command {
    /// Asks for a task; for a given one where an identifier is present.
    GetTask { task_id: Option<serde_json::Value> },
    /// Asks for the list of tasks.
    GetTasks,
    /// Creates a task.
    CreateTask {
        sitekey: serde_json::Value,
        target_url: serde_json::Value,
        captcha_type: serde_json::Value,
    },
    /// Hands in the solution of a task.
    SubmitSolution { task_id: serde_json::Value, solution: serde_json::Value },
    /// Asks how many tasks wait.
    GetQueueCount,
}

/// The member of `doc` under `key`, or `default` where there is none.
pub open spec fn member_or(
    doc: serde_json::Value,
    key: Seq<char>,
    default: serde_json::Value,
) -> serde_json::Value {
    match json_member(doc, key) {
        Some(value) => value,
        None => default,
    }
}

/// The command of the given kind that a command object stands for: each
/// field is the object's member of that name, or its default: the empty
/// string for `sitekey`, `target_url` and `solution`, `hcaptcha` for
/// `captcha_type`, zero for the `task_id` of a solution. The `task_id` of
/// `get_task` has no default.
pub open spec fn command_of(kind: CommandKind, doc: serde_json::Value) -> Command {
    match kind {
        CommandKind::GetTask => Command::GetTask { task_id: json_member(doc, "task_id"@) },
        CommandKind::GetTasks => Command::GetTasks,
        CommandKind::CreateTask => Command::CreateTask {
            sitekey: member_or(doc, "sitekey"@, json_string(""@)),
            target_url: member_or(doc, "target_url"@, json_string(""@)),
            captcha_type: member_or(doc, "captcha_type"@, json_string("hcaptcha"@)),
        },
        CommandKind::SubmitSolution => Command::SubmitSolution {
            task_id: member_or(doc, "task_id"@, json_integer(0)),
            solution: member_or(doc, "solution"@, json_string(""@)),
        },
        CommandKind::GetQueueCount => Command::GetQueueCount,
    }
}

/// The command that a command object stands for: none where its `command`
/// is missing, no string, or no name of the dispatch table.
pub open spec fn decoded(doc: serde_json::Value) -> Option<Command> {
    match text_member(doc, "command"@) {
        Some(name) => match CommandKind::named(name) {
            Some(kind) => Some(command_of(kind, doc)),
            None => None,
        },
        None => None,
    }
}

/// Reads the member of `doc` under `key`, or takes `default`.
fn member_or_else(doc: &serde_json::Value, key: &str, default: serde_json::Value) -> (r:
    serde_json::Value)
    ensures
        r == member_or(*doc, key@, default),
{
    match member(doc, key) {
        Some(value) => value.clone(),
        None => default,
    }
}

impl Command {
    /// The kind of this command.
    pub open spec fn kind_of(self) -> CommandKind {
        match self {
            Command::GetTask { .. } => CommandKind::GetTask,
            Command::GetTasks => CommandKind::GetTasks,
            Command::CreateTask { .. } => CommandKind::CreateTask,
            Command::SubmitSolution { .. } => CommandKind::SubmitSolution,
            Command::GetQueueCount => CommandKind::GetQueueCount,
        }
    }

    /// The members of the request that is forwarded for this command, in the
    /// order in which they are collected.
    pub open spec fn members(self) -> Seq<(Seq<char>, serde_json::Value)> {
        let head = ("command"@, json_string(self.kind_of().name_text()));
        match self {
            Command::GetTask { task_id: Some(id) } => seq![head, ("task_id"@, id)],
            Command::GetTask { task_id: None } => seq![head],
            Command::GetTasks => seq![head],
            Command::CreateTask { sitekey, target_url, captcha_type } => seq![
                head,
                ("sitekey"@, sitekey),
                ("target_url"@, target_url),
                ("captcha_type"@, captcha_type),
            ],
            Command::SubmitSolution { task_id, solution } => seq![
                head,
                ("task_id"@, task_id),
                ("solution"@, solution),
            ],
            Command::GetQueueCount => seq![head],
        }
    }

    /// The request that is forwarded for this command.
    pub open spec fn document(self) -> serde_json::Value {
        json_object(self.members())
    }

    /// The kind of this command.
    pub fn kind(&self) -> (k: CommandKind)
        ensures
            k == self.kind_of(),
    {
        match self {
            Command::GetTask { .. } => CommandKind::GetTask,
            Command::GetTasks => CommandKind::GetTasks,
            Command::CreateTask { .. } => CommandKind::CreateTask,
            Command::SubmitSolution { .. } => CommandKind::SubmitSolution,
            Command::GetQueueCount => CommandKind::GetQueueCount,
        }
    }

    /// Makes the command of the given kind from a command object, with the
    /// defaults for the fields that the object lacks.
    pub fn build(kind: CommandKind, doc: &serde_json::Value) -> (c: Command)
        ensures
            c == command_of(kind, *doc),
    {
        match kind {
            CommandKind::GetTask => Command::GetTask {
                task_id: match member(doc, "task_id") {
                    Some(id) => Some(id.clone()),
                    None => None,
                },
            },
            CommandKind::GetTasks => Command::GetTasks,
            CommandKind::CreateTask => Command::CreateTask {
                sitekey: member_or_else(doc, "sitekey", string_value("")),
                target_url: member_or_else(doc, "target_url", string_value("")),
                captcha_type: member_or_else(doc, "captcha_type", string_value("hcaptcha")),
            },
            CommandKind::SubmitSolution => Command::SubmitSolution {
                task_id: member_or_else(doc, "task_id", integer_value(0)),
                solution: member_or_else(doc, "solution", string_value("")),
            },
            CommandKind::GetQueueCount => Command::GetQueueCount,
        }
    }

    /// Reads the command of a command object: none where its `command` names
    /// no command of the dispatch table.
    pub fn decode(doc: &serde_json::Value) -> (r: Option<Command>)
        ensures
            r == decoded(*doc),
    {
        match text_member_of(doc, "command") {
            Some(name) => match CommandKind::from_name(name.as_str()) {
                Some(kind) => Some(Command::build(kind, doc)),
                None => None,
            },
            None => None,
        }
    }

    /// Writes the request that is forwarded for this command.
    pub fn request(&self) -> (text: String)
        ensures
            text@ == json_text(self.document()),
    {
        let mut members: Vec<(String, serde_json::Value)> = Vec::new();
        members.push(("command".to_owned(), string_value(self.kind().name())));
        match self {
            Command::GetTask { task_id: Some(id) } => {
                members.push(("task_id".to_owned(), id.clone()));
            },
            Command::GetTask { task_id: None } => {},
            Command::GetTasks => {},
            Command::CreateTask { sitekey, target_url, captcha_type } => {
                members.push(("sitekey".to_owned(), sitekey.clone()));
                members.push(("target_url".to_owned(), target_url.clone()));
                members.push(("captcha_type".to_owned(), captcha_type.clone()));
            },
            Command::SubmitSolution { task_id, solution } => {
                members.push(("task_id".to_owned(), task_id.clone()));
                members.push(("solution".to_owned(), solution.clone()));
            },
            Command::GetQueueCount => {},
        }
        assert(member_views(members@) =~= self.members());
        let doc = object_value(members);
        render(&doc)
    }
}

/// What an input line of the command loop amounts to.
#[derive(Clone, Debug, PartialEq, Eq)]
pub enum LineOutcome {
    /// The line is empty or white space only.
    Blank,
    /// The line is no JSON document.
    Malformed,
    /// The line is a JSON document that names no command.
    Unrecognized,
    /// The line asks for this command.
    Request(Command),
}

/// What a line of the command loop amounts to.
pub open spec fn interpreted(line: Seq<char>) -> LineOutcome {
    if blank(line) {
        LineOutcome::Blank
    } else {
        match parsed_json(line) {
            None => LineOutcome::Malformed,
            Some(doc) => match decoded(doc) {
                None => LineOutcome::Unrecognized,
                Some(command) => LineOutcome::Request(command),
            },
        }
    }
}

/// Reads one input line of the command loop.
pub fn interpret_line(line: &str) -> (r: LineOutcome)
    ensures
        r == interpreted(line@),
{
    if is_blank(line) {
        LineOutcome::Blank
    } else {
        match parse(line) {
            Err(_) => LineOutcome::Malformed,
            Ok(doc) => match Command::decode(&doc) {
                None => LineOutcome::Unrecognized,
                Some(command) => LineOutcome::Request(command),
            },
        }
    }
}

} // verus!
