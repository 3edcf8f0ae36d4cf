use vstd::prelude::*;
use vstd::string::*;

use crate::document::str_eq;
use crate::json_text::{parse_result, parse_document};
use crate::world::{error_line, spawn_failure, spawn_model, World};

verus! {

/// A command of the debug console.
#[derive(Debug, PartialEq)]
pub enum Command {
    /// Clear the run flag.
    Quit,
    /// Flip debug drawing.
    ToggleDebugDraw,
    /// Log the text as an info entry.
    Info(String),
    /// Log the text as a warning.
    Warn(String),
    /// Log the text as an error.
    Error(String),
    /// Spawn the entity given as JSON text.
    Spawn(String),
    /// No command has this name.
    Invalid(String),
}

/// Position of the first space in `s`, if any.
pub open spec fn first_space(s: Seq<char>) -> Option<int> {
    if exists|i: int| 0 <= i < s.len() && s[i] == ' ' && forall|j: int| 0 <= j < i ==> s[j] != ' ' {
        Some(
            choose|i: int| 0 <= i < s.len() && s[i] == ' ' && forall|j: int| 0 <= j < i ==> s[j] != ' ',
        )
    } else {
        None
    }
}

/// A console line split into command name and argument text at its first
/// space; a line without a space is all name.
pub open spec fn split_line(s: Seq<char>) -> (Seq<char>, Seq<char>) {
    match first_space(s) {
        Some(i) => (s.subrange(0, i), s.subrange(i + 1, s.len() as int)),
        None => (s, Seq::empty()),
    }
}

/// The command a name and argument text stand for.
pub open spec fn command_model(name: Seq<char>, args: Seq<char>) -> (int, Seq<char>) {
    if name == "quit"@ {
        (0, Seq::empty())
    } else if name == "toggle_debug_draw"@ {
        (1, Seq::empty())
    } else if name == "info"@ {
        (2, args)
    } else if name == "warn"@ {
        (3, args)
    } else if name == "error"@ {
        (4, args)
    } else if name == "spawn"@ {
        (5, args)
    } else {
        (6, name)
    }
}

impl Command {
    /// The kind of command, numbered in declaration order, and its text.
    pub open spec fn model(&self) -> (int, Seq<char>) {
        match self {
            Command::Quit => (0, Seq::empty()),
            Command::ToggleDebugDraw => (1, Seq::empty()),
            Command::Info(s) => (2, s@),
            Command::Warn(s) => (3, s@),
            Command::Error(s) => (4, s@),
            Command::Spawn(s) => (5, s@),
            Command::Invalid(s) => (6, s@),
        }
    }
}

/// Read a console line as a command.
pub fn parse_command(line: &str) -> (r: Command)
    ensures
        r.model() == command_model(split_line(line@).0, split_line(line@).1),
{
    let n = line.unicode_len();
    let mut i: usize = 0;
    while i < n && line.get_char(i) != ' '
        invariant
            n == line@.len(),
            i <= n,
            forall|j: int| 0 <= j < i ==> line@[j] != ' ',
        decreases n - i,
    {
        i = i + 1;
    }
    let name: &str;
    let args: &str;
    if i < n {
        proof {
            let c = choose|c: int|
                0 <= c < line@.len() && line@[c] == ' ' && forall|j: int| 0 <= j < c ==> line@[j] != ' ';
            assert(c == i as int);
        }
        name = line.substring_char(0, i);
        args = line.substring_char(i + 1, n);
    } else {
        assert(line@.subrange(0, n as int) =~= line@);
        name = line;
        args = "";
    }
    proof {
        reveal_strlit("");
        reveal_strlit("quit");
        reveal_strlit("toggle_debug_draw");
        reveal_strlit("info");
        reveal_strlit("warn");
        reveal_strlit("error");
        reveal_strlit("spawn");
    }
    if str_eq(name, "quit") {
        Command::Quit
    } else if str_eq(name, "toggle_debug_draw") {
        Command::ToggleDebugDraw
    } else if str_eq(name, "info") {
        Command::Info(String::from_str(args))
    } else if str_eq(name, "warn") {
        Command::Warn(String::from_str(args))
    } else if str_eq(name, "error") {
        Command::Error(String::from_str(args))
    } else if str_eq(name, "spawn") {
        Command::Spawn(String::from_str(args))
    } else {
        Command::Invalid(String::from_str(name))
    }
}

impl World {
    /// Carry out a console command. A spawn whose text is not JSON, or
    /// whose entity cannot be spawned, and an unknown command are logged as
    /// errors.
    pub fn run_command(&mut self, cmd: Command)
        ensures
            final(self).should_run == (old(self).should_run && !(cmd is Quit)),
            final(self).debug_draw == (old(self).debug_draw != (cmd is ToggleDebugDraw)),
            final(self).scene.model() == (match cmd {
                Command::Spawn(text) => match parse_result(text@) {
                    Some(e) => spawn_model(old(self).scene.model(), e),
                    None => old(self).scene.model(),
                },
                _ => old(self).scene.model(),
            }),
            final(self).snapshot() == old(self).snapshot(),
            final(self).scripts == old(self).scripts,
            final(self).state == old(self).state,
            final(self).phase_of() == old(self).phase_of(),
            match cmd {
                Command::Info(text) => final(self).logger.text() == old(self).logger.text() + "[INFO]: "@
                    + text@ + "\n"@,
                Command::Warn(text) => final(self).logger.text() == old(self).logger.text()
                    + "[WARNING]: "@ + text@ + "\n"@,
                Command::Error(text) => final(self).logger.text() == old(self).logger.text()
                    + "[ERROR]: "@ + text@ + "\n"@,
                Command::Invalid(name) => final(self).logger.text() == old(self).logger.text()
                    + error_line("Invalid command: \""@ + name@ + "\""@),
                Command::Spawn(text) => final(self).logger.text() == old(self).logger.text()
                    + match parse_result(text@) {
                    Some(e) => match spawn_failure(old(self).scene.model(), e) {
                        Some(reason) => error_line("Failed to spawn entity: "@ + reason),
                        None => Seq::empty(),
                    },
                    None => error_line("Failed to spawn entity: "@ + text@),
                },
                _ => final(self).logger == old(self).logger,
            },
    {
        match cmd {
            Command::Quit => {
                self.should_run = false;
            },
            Command::ToggleDebugDraw => {
                self.debug_draw = !self.debug_draw;
            },
            Command::Info(text) => self.logger.info(text.as_str()),
            Command::Warn(text) => self.logger.warn(text.as_str()),
            Command::Error(text) => self.logger.error(text.as_str()),
            Command::Spawn(text) => match parse_document(text.as_str()) {
                Ok(entity) => match self.spawn_entity(entity) {
                    Ok(()) => {
                        assert(self.logger.text() =~= old(self).logger.text() + Seq::empty());
                    },
                    Err(e) => {
                        let line = String::from_str("Failed to spawn entity: ").concat(
                            e.reason.as_str(),
                        );
                        self.logger.error(line.as_str());
                        assert(self.logger.text() =~= old(self).logger.text() + error_line(
                            "Failed to spawn entity: "@ + e.reason@,
                        ));
                    },
                },
                Err(_) => {
                    let line = String::from_str("Failed to spawn entity: ").concat(text.as_str());
                    self.logger.error(line.as_str());
                    assert(self.logger.text() =~= old(self).logger.text() + error_line(
                        "Failed to spawn entity: "@ + text@,
                    ));
                },
            },
            Command::Invalid(name) => {
                let line = String::from_str("Invalid command: \"").concat(name.as_str()).concat("\"");
                self.logger.error(line.as_str());
                assert(self.logger.text() =~= old(self).logger.text() + error_line(
                    "Invalid command: \""@ + name@ + "\""@,
                ));
            },
        }
    }
}

} // verus!
