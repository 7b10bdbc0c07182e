//! The commands that a line of input can give, and the tasks they start.

pub mod send_audio;
pub mod send_file;
pub mod send_stream;

use vstd::prelude::*;
use crate::action::{Launch, LaunchView};
use crate::commands::send_audio::SendAudioCommand;
use crate::commands::send_file::SendFileCommand;
use crate::commands::send_stream::{SendStreamCommand, StopStreamCommand};
use crate::task::Task;
use crate::text::{chars_of, split_words, string_of, words};

verus! {

/// The commands that exist.
#[derive(Clone, Copy, Debug, PartialEq, Eq, Structural)]
pub enum CommandKind {
    SendFile,
    SendStream,
    StopStream,
    SendAudio,
}

/// What a command that was understood asks for.
#[derive(Debug, PartialEq, Eq)]
pub enum Parsed {
    /// A task that can run as it is.
    Ready(Task),
    /// A task whose resources have to be opened first.
    Open(Launch),
}

/// The character that marks a line as a command.
pub open spec fn command_prefix() -> char {
    '?'
}

/// The command that goes by `name`.
pub open spec fn command_named(name: Seq<char>) -> Option<CommandKind> {
    if name == "send"@ {
        Some(CommandKind::SendFile)
    } else if name == "stream"@ {
        Some(CommandKind::SendStream)
    } else if name == "stopstream"@ {
        Some(CommandKind::StopStream)
    } else if name == "sa"@ {
        Some(CommandKind::SendAudio)
    } else {
        None
    }
}

/// The command that `line` gives where the commands of `registered` are
/// known: the first word of the line, if it is the prefix followed by the
/// name of one of them.
pub open spec fn chosen(registered: Set<CommandKind>, line: Seq<char>) -> Option<CommandKind> {
    let found = words(line);
    if found.len() > 0 && found[0].len() > 0 && found[0][0] == command_prefix() {
        match command_named(found[0].skip(1)) {
            Some(kind) => if registered.contains(kind) {
                Some(kind)
            } else {
                None
            },
            None => None,
        }
    } else {
        None
    }
}

/// The words of `line` after the first: the parameters of its command.
pub open spec fn parameters(line: Seq<char>) -> Seq<Seq<char>> {
    words(line).skip(1)
}

/// Whether `parsed` is what the command `kind` makes of `params`.
pub open spec fn parses_to(
    kind: CommandKind,
    params: Seq<Seq<char>>,
    parsed: Result<Parsed, String>,
) -> bool {
    match kind {
        CommandKind::SendFile => if params.len() == 0 {
            parsed matches Err(reason) && reason@ == "No file specified"@
        } else {
            parsed matches Ok(Parsed::Open(launch)) && launch@ == (LaunchView::SendFile {
                path: params[0],
            })
        },
        CommandKind::SendStream => parsed matches Ok(Parsed::Open(launch)) && launch@
            == LaunchView::SendStream,
        CommandKind::StopStream => parsed matches Ok(Parsed::Ready(task)) && task is StopStream,
        CommandKind::SendAudio => parsed matches Ok(Parsed::Open(launch)) && launch@
            == LaunchView::SendAudio,
    }
}

/// The commands that a node understands.
pub struct CommandManager {
    parsers: Vec<CommandKind>,
}

impl View for CommandManager {
    type V = Set<CommandKind>;

    closed spec fn view(&self) -> Set<CommandKind> {
        Set::new(|kind: CommandKind| self.parsers@.contains(kind))
    }
}

impl Default for CommandManager {
    /// A registry that knows no command.
    fn default() -> (commands: CommandManager)
        ensures
            commands@ == Set::<CommandKind>::empty(),
    {
        let commands = CommandManager { parsers: Vec::new() };
        assert(commands@ =~= Set::empty());
        commands
    }
}

impl CommandManager {
    /// The registry that knows `command` as well.
    pub fn with(self, command: CommandKind) -> (commands: CommandManager)
        ensures
            commands@ == self@.insert(command),
    {
        let ghost known = self@;
        let ghost before = self.parsers@;
        let mut parsers = self.parsers;
        parsers.push(command);
        let commands = CommandManager { parsers };
        proof {
            let after = commands.parsers@;
            assert(after == before.push(command));
            assert forall|kind: CommandKind| commands@.contains(kind) <==> known.insert(
                command,
            ).contains(kind) by {
                if before.contains(kind) {
                    let i = choose|i: int| 0 <= i < before.len() && before[i] == kind;
                    assert(after[i] == kind);
                }
                if kind == command {
                    assert(after[before.len() as int] == kind);
                }
                if after.contains(kind) {
                    let i = choose|i: int| 0 <= i < after.len() && after[i] == kind;
                    if i < before.len() {
                        assert(before[i] == kind);
                    }
                }
            }
            assert(commands@ =~= known.insert(command));
        }
        commands
    }

    fn knows(&self, command: CommandKind) -> (known: bool)
        ensures
            known == self@.contains(command),
    {
        let mut i: usize = 0;
        while i < self.parsers.len()
            invariant
                i <= self.parsers.len(),
                forall|k: int| 0 <= k < i ==> self.parsers@[k] != command,
            decreases self.parsers.len() - i,
        {
            if self.parsers[i] == command {
                return true;
            }
            i += 1;
        }
        false
    }

    /// Reads a line of input as a command.
    ///
    /// `None` says that the line gives no command that is known here.
    /// Otherwise the command has read its parameters, the words after the
    /// first: the result is what it asks for, or the reason why it could
    /// make nothing of them.
    pub fn find_command_action(&self, input: &str) -> (found: Option<Result<Parsed, String>>)
        ensures
            found is None <==> chosen(self@, input@) is None,
            found matches Some(parsed) ==> parses_to(
                chosen(self@, input@)->0,
                parameters(input@),
                parsed,
            ),
    {
        let line = chars_of(input);
        let found = split_words(&line);
        if found.len() == 0 {
            return None;
        }
        let first = &found[0];
        assert(first@ == words(input@)[0]);
        if first.len() == 0 || first[0] != '?' {
            return None;
        }
        let mut rest: Vec<char> = Vec::new();
        let mut i: usize = 1;
        while i < first.len()
            invariant
                1 <= i <= first.len(),
                rest@ == first@.subrange(1, i as int),
            decreases first.len() - i,
        {
            rest.push(first[i]);
            i += 1;
            assert(first@.subrange(1, i as int) =~= first@.subrange(1, i - 1).push(first@[i - 1]));
        }
        assert(rest@ =~= first@.skip(1));
        let name = string_of(&rest);
        let kind = if name == String::from_str("send") {
            CommandKind::SendFile
        } else if name == String::from_str("stream") {
            CommandKind::SendStream
        } else if name == String::from_str("stopstream") {
            CommandKind::StopStream
        } else if name == String::from_str("sa") {
            CommandKind::SendAudio
        } else {
            return None;
        };
        if !self.knows(kind) {
            return None;
        }
        let mut params: Vec<String> = Vec::new();
        let mut k: usize = 1;
        while k < found.len()
            invariant
                1 <= k <= found.len(),
                params@.len() == k - 1,
                forall|j: int| 0 <= j < params@.len() ==> params@[j]@ == found@[j + 1]@,
            decreases found.len() - k,
        {
            params.push(string_of(&found[k]));
            k += 1;
        }
        assert(params@.len() == parameters(input@).len());
        assert(forall|j: int| 0 <= j < params@.len() ==> params@[j]@ == parameters(input@)[j]);
        let parsed = match kind {
            CommandKind::SendFile => match SendFileCommand.parse_params(&params) {
                Ok(launch) => Ok(Parsed::Open(launch)),
                Err(reason) => Err(reason),
            },
            CommandKind::SendStream => match SendStreamCommand.parse_params(&params) {
                Ok(launch) => Ok(Parsed::Open(launch)),
                Err(reason) => Err(reason),
            },
            CommandKind::StopStream => match StopStreamCommand.parse_params(&params) {
                Ok(task) => Ok(Parsed::Ready(Task::StopStream(task))),
                Err(reason) => Err(reason),
            },
            CommandKind::SendAudio => match SendAudioCommand.parse_params(&params) {
                Ok(launch) => Ok(Parsed::Open(launch)),
                Err(reason) => Err(reason),
            },
        };
        Some(parsed)
    }
}

} // verus!
