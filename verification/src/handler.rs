//! Running an external handler program for one event: what to run, with which
//! environment and input, and what its exit means.
//!
//! The handler reads the event's JSON on stdin (followed by a newline), finds the
//! message subject in `NATS_SUBJECT` and the event id in `NATS_MSG_ID`, and exits
//! with 0 on success.

use vstd::prelude::*;
use vstd::utf8::{decode_utf8, valid_utf8};
use crate::config::opt_view;
use crate::event::{Event, id_or_unknown};
use crate::number::{format_i32, signed_decimal};
use crate::text::{chars_of, push_str, split_whitespace, split_ws, string_of, strings_view, trim_chars, trimmed};

verus! {

/// One run of the handler program.
#[derive(Debug, Clone)]
pub struct HandlerRun {
    /// The program, the first word of the handler command.
    pub program: String,
    /// Its arguments, the remaining words.
    pub args: Vec<String>,
    /// Variables added to its environment, name and value.
    pub env: Vec<(String, String)>,
    /// The event's JSON text, written first to its stdin.
    pub payload: String,
    /// What is written to its stdin after the JSON text, a newline, before
    /// stdin is closed.
    pub stdin_end: String,
}

/// A handler run in plain values.
pub struct HandlerRunView {
    pub program: Seq<char>,
    pub args: Seq<Seq<char>>,
    pub env: Seq<(Seq<char>, Seq<char>)>,
    pub payload: Seq<char>,
    pub stdin_end: Seq<char>,
}

/// The views of environment entries.
pub open spec fn env_view(env: Seq<(String, String)>) -> Seq<(Seq<char>, Seq<char>)> {
    env.map_values(|e: (String, String)| (e.0@, e.1@))
}

impl View for HandlerRun {
    type V = HandlerRunView;

    open spec fn view(&self) -> HandlerRunView {
        HandlerRunView {
            program: self.program@,
            args: strings_view(self.args@),
            env: env_view(self.env@),
            payload: self.payload@,
            stdin_end: self.stdin_end@,
        }
    }
}

/// Why handling an event failed.
#[derive(Debug, Clone)]
pub enum HandlerError {
    /// No handler command is configured.
    MissingCommand,
    /// The event could not be written as JSON.
    SerializeFailed,
    /// The handler command has no words.
    EmptyCommand,
    /// The program could not be started; the whole command is given.
    SpawnFailed { command: String },
    /// Writing the event to the handler's stdin failed.
    StdinWriteFailed,
    /// Writing the closing newline to the handler's stdin failed.
    NewlineWriteFailed,
    /// Waiting for the handler to finish failed.
    WaitFailed,
    /// The handler exited unsuccessfully: its exit code (-1 when it has none)
    /// and its trimmed stderr.
    Exited { code: i32, stderr: String },
}

/// The text that describes a handler error.
pub open spec fn handler_error_text(e: HandlerError) -> Seq<char> {
    match e {
        HandlerError::MissingCommand => "MESSAGE_HANDLER_CMD environment variable not set"@,
        HandlerError::SerializeFailed => "Failed to serialize event to JSON"@,
        HandlerError::EmptyCommand => "MESSAGE_HANDLER_CMD is empty"@,
        HandlerError::SpawnFailed { command } => "Failed to spawn handler command: "@ + command@,
        HandlerError::StdinWriteFailed => "Failed to write event to handler stdin"@,
        HandlerError::NewlineWriteFailed => "Failed to write newline to handler stdin"@,
        HandlerError::WaitFailed => "Failed to wait for handler process"@,
        HandlerError::Exited { code, stderr } => "Handler exited with code "@ + signed_decimal(
            code as int,
        ) + ": "@ + stderr@,
    }
}

impl HandlerError {
    /// The text that describes the error.
    pub fn message(&self) -> (s: String)
        ensures
            s@ == handler_error_text(*self),
    {
        let mut s = String::new();
        match self {
            HandlerError::MissingCommand => push_str(
                &mut s,
                "MESSAGE_HANDLER_CMD environment variable not set",
            ),
            HandlerError::SerializeFailed => push_str(&mut s, "Failed to serialize event to JSON"),
            HandlerError::EmptyCommand => push_str(&mut s, "MESSAGE_HANDLER_CMD is empty"),
            HandlerError::SpawnFailed { command } => {
                push_str(&mut s, "Failed to spawn handler command: ");
                push_str(&mut s, command.as_str());
            },
            HandlerError::StdinWriteFailed => push_str(
                &mut s,
                "Failed to write event to handler stdin",
            ),
            HandlerError::NewlineWriteFailed => push_str(
                &mut s,
                "Failed to write newline to handler stdin",
            ),
            HandlerError::WaitFailed => push_str(&mut s, "Failed to wait for handler process"),
            HandlerError::Exited { code, stderr } => {
                push_str(&mut s, "Handler exited with code ");
                let c = format_i32(*code);
                push_str(&mut s, c.as_str());
                push_str(&mut s, ": ");
                push_str(&mut s, stderr.as_str());
            },
        }
        s
    }
}

/// The view of an optional string slice.
pub open spec fn opt_str_view(v: Option<&str>) -> Option<Seq<char>> {
    match v {
        Some(s) => Some(s@),
        None => None,
    }
}

/// The environment handed to the handler: the subject and the event id.
pub open spec fn handler_env(subject: Seq<char>, event_id: Seq<char>) -> Seq<(Seq<char>, Seq<char>)> {
    seq![("NATS_SUBJECT"@, subject), ("NATS_MSG_ID"@, event_id)]
}

/// What running the handler for an event takes, or why it cannot be run: the
/// handler's stdin gets the event's JSON text and then a newline. An
/// unset command is `MissingCommand`, an event without JSON text is
/// `SerializeFailed`, and a command without words is `EmptyCommand`, tested in
/// that order.
pub open spec fn planned_run(
    id: Option<Seq<char>>,
    json: Option<Seq<char>>,
    subject: Seq<char>,
    command: Option<Seq<char>>,
) -> Result<HandlerRunView, HandlerError> {
    match command {
        None => Err(HandlerError::MissingCommand),
        Some(cmd) => match json {
            None => Err(HandlerError::SerializeFailed),
            Some(text) => {
                let words = split_ws(cmd);
                if words.len() == 0 {
                    Err(HandlerError::EmptyCommand)
                } else {
                    Ok(
                        HandlerRunView {
                            program: words[0],
                            args: words.skip(1),
                            env: handler_env(subject, id_or_unknown(id)),
                            payload: text,
                            stdin_end: seq!['\n'],
                        },
                    )
                }
            },
        },
    }
}

/// The run result in plain values.
pub open spec fn run_view(r: Result<HandlerRun, HandlerError>) -> Result<HandlerRunView, HandlerError> {
    match r {
        Ok(run) => Ok(run@),
        Err(e) => Err(e),
    }
}

fn rest_of(words: Vec<String>) -> (v: Vec<String>)
    requires
        words.len() >= 1,
    ensures
        strings_view(v@) == strings_view(words@).skip(1),
{
    let mut v: Vec<String> = Vec::new();
    let mut i: usize = 1;
    while i < words.len()
        invariant
            1 <= i <= words.len(),
            strings_view(v@) == strings_view(words@).subrange(1, i as int),
        decreases words.len() - i,
    {
        let ghost old_v = v@;
        v.push(words[i].clone());
        assert(strings_view(v@) =~= strings_view(old_v).push(words@[i as int]@));
        assert(strings_view(v@) =~= strings_view(words@).subrange(1, i + 1 as int));
        i = i + 1;
    }
    assert(strings_view(words@).subrange(1, words.len() as int) =~= strings_view(words@).skip(1));
    v
}

/// What running the handler for `event`, published on `subject`, takes when the
/// handler command is `command`.
pub fn plan_handler_run(event: &Event, subject: &str, command: Option<&str>) -> (r: Result<
    HandlerRun,
    HandlerError,
>)
    ensures
        run_view(r) == planned_run(opt_view(event.id), opt_view(event.json), subject@, opt_str_view(command)),
{
    let event_id = event.id_or_unknown();
    let cmd = match command {
        Some(c) => c,
        None => {
            return Err(HandlerError::MissingCommand);
        },
    };
    let payload = match &event.json {
        Some(t) => t.clone(),
        None => {
            return Err(HandlerError::SerializeFailed);
        },
    };
    let words = split_whitespace(cmd);
    if words.len() == 0 {
        return Err(HandlerError::EmptyCommand);
    }
    let program = words[0].clone();
    let args = rest_of(words);
    let mut env: Vec<(String, String)> = Vec::new();
    env.push(("NATS_SUBJECT".to_owned(), subject.to_owned()));
    env.push(("NATS_MSG_ID".to_owned(), event_id));
    assert(env_view(env@) =~= handler_env(subject@, id_or_unknown(opt_view(event.id))));
    let stdin_end = "\n".to_owned();
    proof {
        reveal_strlit("\n");
    }
    assert(stdin_end@ =~= seq!['\n']);
    let run = HandlerRun { program, args, env, payload, stdin_end };
    assert(run@.args == strings_view(words@).skip(1));
    Ok(run)
}

/// What `String::from_utf8_lossy` makes of `bytes`: their text, with each
/// invalid sequence replaced by U+FFFD.
pub uninterp spec fn lossy_text(bytes: Seq<u8>) -> Seq<char>;

/// Calls `String::from_utf8_lossy`. The contract names the result
/// (`lossy_text`) and states, as its documentation does, that valid UTF-8 is
/// decoded unchanged; how invalid bytes are replaced is not stated.
#[verifier::external_body]
fn utf8_lossy(bytes: &[u8]) -> (s: String)
    ensures
        s@ == lossy_text(bytes@),
        valid_utf8(bytes@) ==> s@ == decode_utf8(bytes@),
{
    String::from_utf8_lossy(bytes).into_owned()
}

/// The trimmed text of a handler's stderr.
pub open spec fn stderr_text(stderr: Seq<u8>) -> Seq<char> {
    trimmed(lossy_text(stderr))
}

/// The exit code, or -1 for a process that has none.
pub open spec fn exit_code_or_minus_one(code: Option<i32>) -> i32 {
    match code {
        Some(k) => k,
        None => -1i32,
    }
}

/// What a finished handler means: success when it exited successfully, else
/// `Exited` with its exit code (-1 when there is none) and its trimmed stderr.
pub fn handler_outcome(success: bool, code: Option<i32>, stderr: &[u8]) -> (r: Result<(), HandlerError>)
    ensures
        success ==> r is Ok,
        !success ==> (r matches Err(HandlerError::Exited { code: c, stderr: text }) && c
            == exit_code_or_minus_one(code) && text@ == stderr_text(stderr@)),
{
    if success {
        Ok(())
    } else {
        let text = utf8_lossy(stderr);
        let cs = chars_of(text.as_str());
        let t = trim_chars(cs.as_slice());
        let exit_code = match code {
            Some(k) => k,
            None => -1i32,
        };
        Err(HandlerError::Exited { code: exit_code, stderr: string_of(t.as_slice()) })
    }
}

/// A handler can be run exactly when a command is set, the event has JSON text
/// and the command has a word; then the program followed by its arguments is
/// the command's whole list of words, of any length, its environment gives the
/// subject and the event's `id` field unchanged (or `unknown`), and its stdin
/// gets the JSON text and a newline.
pub proof fn law_run_follows_command(
    id: Option<Seq<char>>,
    json: Option<Seq<char>>,
    subject: Seq<char>,
    command: Option<Seq<char>>,
)
    ensures
        planned_run(id, json, subject, command) is Ok <==> (command is Some && json is Some
            && split_ws(command->Some_0).len() > 0),
        planned_run(id, json, subject, command) is Ok ==> ({
            let run = planned_run(id, json, subject, command)->Ok_0;
            &&& seq![run.program] + run.args == split_ws(command->Some_0)
            &&& run.env.len() == 2
            &&& run.env[0] == ("NATS_SUBJECT"@, subject)
            &&& id matches Some(s) ==> run.env[1] == ("NATS_MSG_ID"@, s)
            &&& id is None ==> run.env[1] == ("NATS_MSG_ID"@, "unknown"@)
            &&& Some(run.payload) == json
            &&& run.stdin_end == seq!['\n']
        }),
{
    if planned_run(id, json, subject, command) is Ok {
        let words = split_ws(command->Some_0);
        let run = planned_run(id, json, subject, command)->Ok_0;
        assert(seq![words[0]] + words.skip(1) =~= words);
    }
}

} // verus!
