//! The command interpreter's first half: what a line of input means.

use vstd::prelude::*;
use vstd::string::*;
use crate::render::DisplayLine;
use crate::render::LineFields;
use crate::render::LineStyle;
use crate::text::same_text;

verus! {

/// What a submitted line asks for.
#[derive(Debug, Clone, PartialEq, Eq)]
pub enum Command {
    /// Nothing was typed.
    Empty,
    /// Show the list of commands.
    Help,
    /// Empty the message view.
    Clear,
    /// End the session and go back to the login prompt.
    Logout,
    /// Leave the program.
    Quit,
    /// Send this text to the channel.
    Say { text: String },
}

/// What a [`Command`] holds, with its text as a sequence of characters.
pub enum CommandFields {
    Empty,
    Help,
    Clear,
    Logout,
    Quit,
    Say { text: Seq<char> },
}

impl View for Command {
    type V = CommandFields;

    open spec fn view(&self) -> CommandFields {
        match self {
            Command::Empty => CommandFields::Empty,
            Command::Help => CommandFields::Help,
            Command::Clear => CommandFields::Clear,
            Command::Logout => CommandFields::Logout,
            Command::Quit => CommandFields::Quit,
            Command::Say { text } => CommandFields::Say { text: text@ },
        }
    }
}

pub open spec fn word_help() -> Seq<char> {
    "/help"@
}

pub open spec fn word_clear() -> Seq<char> {
    "/clear"@
}

pub open spec fn word_logout() -> Seq<char> {
    "/logout"@
}

pub open spec fn word_quit() -> Seq<char> {
    "/quit"@
}

/// Whether `line` is one of the four reserved words, letter for letter.
pub open spec fn is_reserved(line: Seq<char>) -> bool {
    line == word_help() || line == word_clear() || line == word_logout() || line == word_quit()
}

/// The meaning of a line.  A reserved word is matched whole and exactly; any
/// other line that is not empty is chat text, kept as it is.
pub open spec fn command_of(line: Seq<char>) -> CommandFields {
    if line.len() == 0 {
        CommandFields::Empty
    } else if line == word_help() {
        CommandFields::Help
    } else if line == word_clear() {
        CommandFields::Clear
    } else if line == word_logout() {
        CommandFields::Logout
    } else if line == word_quit() {
        CommandFields::Quit
    } else {
        CommandFields::Say { text: line }
    }
}

/// Classifies one line of input.
pub fn parse_command(line: &str) -> (c: Command)
    ensures
        c@ == command_of(line@),
{
    if line.is_empty() {
        Command::Empty
    } else if same_text(line, "/help") {
        Command::Help
    } else if same_text(line, "/clear") {
        Command::Clear
    } else if same_text(line, "/logout") {
        Command::Logout
    } else if same_text(line, "/quit") {
        Command::Quit
    } else {
        Command::Say { text: line.to_owned() }
    }
}

/// The four reserved words are four different words, and none is empty.
pub proof fn lemma_reserved_words_differ()
    ensures
        command_of(word_help()) == CommandFields::Help,
        command_of(word_clear()) == CommandFields::Clear,
        command_of(word_logout()) == CommandFields::Logout,
        command_of(word_quit()) == CommandFields::Quit,
{
    reveal_strlit("/help");
    reveal_strlit("/clear");
    reveal_strlit("/logout");
    reveal_strlit("/quit");
    assert(word_help().len() == 5);
    assert(word_clear().len() == 6);
    assert(word_logout().len() == 7);
    assert(word_quit().len() == 5);
    assert(word_help()[1] == 'h');
    assert(word_quit()[1] == 'q');
}

/// A line that is neither empty nor reserved is chat text, unchanged.
pub proof fn lemma_other_lines_are_chat(line: Seq<char>)
    requires
        line.len() > 0,
        !is_reserved(line),
    ensures
        command_of(line) == (CommandFields::Say { text: line }),
{
}

/// The text of the help block.
pub open spec fn help_text() -> Seq<char> {
    "\n=== Commands ===\n/help - Show this help\n/clear - Clear messages\n/logout - Logout chat\n/quit - Exit chat\n\n"@
}

/// The help block as it stands in the message view.
pub open spec fn help_fields() -> LineFields {
    LineFields { style: LineStyle::Plain, text: help_text() }
}

/// The help block: the list of commands, unstyled.
pub fn help_block() -> (block: DisplayLine)
    ensures
        block@ == help_fields(),
{
    DisplayLine {
        style: LineStyle::Plain,
        text: "\n=== Commands ===\n/help - Show this help\n/clear - Clear messages\n/logout - Logout chat\n/quit - Exit chat\n\n".to_owned(),
    }
}

} // verus!
