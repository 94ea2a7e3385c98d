//! The commands that the backend gives, and how they are written.

use vstd::prelude::*;

use crate::json::{
    is_plain, json_members, members_text, members_view, print_error, read_members,
    reads_written_members,
};
use crate::text::{same_text, text_view};

verus! {

/// What a message from the backend asks for.
#[derive(Debug, Clone, Copy, PartialEq, Eq)]
pub enum BackendCommand {
    /// Start streaming the screen.
    StartScreen,
    /// Stop streaming the screen.
    StopScreen,
    /// Start or stop collecting the location.
    Gps { enabled: bool },
    /// Nothing that the agent does anything about.
    Other,
}

/// The message is not JSON.
#[derive(Debug)]
pub struct NotJson {
    pub reason: String,
}

/// The command in a message with this `type` and this `enabled`. A location
/// command without a flag turns collection off.
pub open spec fn command_of(kind: Option<Seq<char>>, flag: Option<bool>) -> BackendCommand {
    if kind == Some("START_SCREEN_STREAM"@) {
        BackendCommand::StartScreen
    } else if kind == Some("STOP_SCREEN_STREAM"@) {
        BackendCommand::StopScreen
    } else if kind == Some("GPS_COLLECTION"@) {
        BackendCommand::Gps { enabled: flag == Some(true) }
    } else {
        BackendCommand::Other
    }
}

/// The message that holds a command, as the agent writes it.
pub open spec fn wire_text(command: BackendCommand) -> Seq<char> {
    match command {
        BackendCommand::StartScreen => members_text(
            "type"@,
            "START_SCREEN_STREAM"@,
            "enabled"@,
            None,
        ),
        BackendCommand::StopScreen => members_text(
            "type"@,
            "STOP_SCREEN_STREAM"@,
            "enabled"@,
            None,
        ),
        BackendCommand::Gps { enabled } => members_text(
            "type"@,
            "GPS_COLLECTION"@,
            "enabled"@,
            Some(enabled),
        ),
        BackendCommand::Other => seq![],
    }
}

/// The names differ, so no message is two commands.
proof fn command_names()
    ensures
        is_plain("type"@),
        is_plain("enabled"@),
        "type"@ != "enabled"@,
        is_plain("START_SCREEN_STREAM"@),
        is_plain("STOP_SCREEN_STREAM"@),
        is_plain("GPS_COLLECTION"@),
        "START_SCREEN_STREAM"@ != "STOP_SCREEN_STREAM"@,
        "START_SCREEN_STREAM"@ != "GPS_COLLECTION"@,
        "STOP_SCREEN_STREAM"@ != "GPS_COLLECTION"@,
{
    reveal_strlit("type");
    reveal_strlit("enabled");
    reveal_strlit("START_SCREEN_STREAM");
    reveal_strlit("STOP_SCREEN_STREAM");
    reveal_strlit("GPS_COLLECTION");
    assert("type"@.len() != "enabled"@.len());
    assert("START_SCREEN_STREAM"@.len() != "STOP_SCREEN_STREAM"@.len());
    assert("START_SCREEN_STREAM"@.len() != "GPS_COLLECTION"@.len());
    assert("STOP_SCREEN_STREAM"@.len() != "GPS_COLLECTION"@.len());
}

/// The command in a message with this `type` and this `enabled`.
pub fn command(kind: Option<String>, flag: Option<bool>) -> (command: BackendCommand)
    ensures
        command == command_of(text_view(kind), flag),
{
    proof {
        command_names();
    }
    match kind {
        Some(kind) => {
            if same_text(kind.as_str(), "START_SCREEN_STREAM") {
                BackendCommand::StartScreen
            } else if same_text(kind.as_str(), "STOP_SCREEN_STREAM") {
                BackendCommand::StopScreen
            } else if same_text(kind.as_str(), "GPS_COLLECTION") {
                BackendCommand::Gps {
                    enabled: match flag {
                        Some(enabled) => enabled,
                        None => false,
                    },
                }
            } else {
                BackendCommand::Other
            }
        },
        None => BackendCommand::Other,
    }
}

/// The command in a message. What [`command_text`] writes reads back as what was
/// written.
pub fn read_command(message: &str) -> (read: Result<BackendCommand, NotJson>)
    ensures
        match json_members(message@, "type"@, "enabled"@) {
            Err(reason) => read matches Err(error) && error.reason@ == reason,
            Ok((kind, flag)) => read == Ok::<BackendCommand, NotJson>(command_of(kind, flag)),
        },
        forall|c: BackendCommand|
            !(c is Other) && message@ == #[trigger] wire_text(c) ==> read == Ok::<
                BackendCommand,
                NotJson,
            >(c),
{
    let members = read_members(message, "type", "enabled");
    proof {
        command_names();
        assert forall|c: BackendCommand|
            !(c is Other) && message@ == #[trigger] wire_text(c) implies members matches Ok(found)
            && command_of(text_view(found.0), found.1) == c by {
            assert(reads_written_members(message@, "type"@, "enabled"@, members_view(members)));
        }
    }
    match members {
        Ok((kind, flag)) => Ok(command(kind, flag)),
        Err(error) => Err(NotJson { reason: print_error(error) }),
    }
}

/// The message that holds a command.
pub fn command_text(command: BackendCommand) -> (text: String)
    ensures
        text@ == wire_text(command),
{
    let (kind, flag) = match command {
        BackendCommand::StartScreen => ("START_SCREEN_STREAM", None),
        BackendCommand::StopScreen => ("STOP_SCREEN_STREAM", None),
        BackendCommand::Gps { enabled } => ("GPS_COLLECTION", Some(enabled)),
        BackendCommand::Other => {
            let text = String::new();
            assert(text@ =~= seq![]);
            return text;
        },
    };
    proof {
        reveal_strlit("{\"type\":\"");
        reveal_strlit("type");
        reveal_strlit("\"");
        reveal_strlit("\",\"enabled\":true");
        reveal_strlit("\",\"enabled\":false");
        reveal_strlit("enabled");
        reveal_strlit("}");
    }
    let mut text = "{\"type\":\"".to_owned();
    text.append(kind);
    match flag {
        None => text.append("\""),
        Some(true) => text.append("\",\"enabled\":true"),
        Some(false) => text.append("\",\"enabled\":false"),
    }
    text.append("}");
    assert(text@ =~= members_text("type"@, kind@, "enabled"@, flag));
    text
}

/// A message is a command by its type alone, and the location goes on where the flag says
/// so and off in every other case.
pub proof fn types_tell_commands_apart(kind: Option<Seq<char>>, flag: Option<bool>)
    ensures
        command_of(kind, flag) is StartScreen <==> kind == Some("START_SCREEN_STREAM"@),
        command_of(kind, flag) is StopScreen <==> kind == Some("STOP_SCREEN_STREAM"@),
        command_of(kind, flag) is Gps <==> kind == Some("GPS_COLLECTION"@),
        command_of(kind, flag) == (BackendCommand::Gps { enabled: true }) <==> kind == Some(
            "GPS_COLLECTION"@,
        ) && flag == Some(true),
{
    command_names();
}

/// What is written of a command is what it is read from.
pub proof fn commands_read_back(command: BackendCommand)
    requires
        !(command is Other),
    ensures
        exists|kind: Seq<char>, flag: Option<bool>|
            #[trigger] command_of(Some(kind), flag) == command && wire_text(command)
                == members_text("type"@, kind, "enabled"@, flag),
{
    command_names();
    match command {
        BackendCommand::StartScreen => {
            assert(command_of(Some("START_SCREEN_STREAM"@), None) == command);
        },
        BackendCommand::StopScreen => {
            assert(command_of(Some("STOP_SCREEN_STREAM"@), None) == command);
        },
        BackendCommand::Gps { enabled } => {
            assert(command_of(Some("GPS_COLLECTION"@), Some(enabled)) == command);
        },
        BackendCommand::Other => {},
    }
}

} // verus!
