//! The commands of the debugger and how a line of input becomes one.

use vstd::prelude::*;
use vstd::string::*;

verus! {

/// A command for the debugger.
#[derive(Clone, Debug, PartialEq, Eq)]
pub enum DebuggerCommand {
    /// Leave the debugger.
    Quit,
    /// Start the target with the given arguments.
    Run(Vec<String>),
    /// Let the stopped target run on.
    Continue,
    /// Show the call stack of the stopped target.
    Backtrace,
}

/// What a command says, with the arguments of `Run` as a sequence.
pub enum CommandView {
    Quit,
    Run(Seq<String>),
    Continue,
    Backtrace,
}

impl View for DebuggerCommand {
    type V = CommandView;

    open spec fn view(&self) -> CommandView {
        match self {
            DebuggerCommand::Quit => CommandView::Quit,
            DebuggerCommand::Run(args) => CommandView::Run(args@),
            DebuggerCommand::Continue => CommandView::Continue,
            DebuggerCommand::Backtrace => CommandView::Backtrace,
        }
    }
}

/// What came in place of a line of input.
#[derive(Clone, Debug, PartialEq, Eq)]
pub enum Input {
    /// The operator interrupted the prompt.
    Interrupted,
    /// The input has ended.
    Eof,
    /// A line, split at white space into its words.
    Line(Vec<String>),
}

/// Why an input gave no command, so that the prompt is shown again.
#[derive(Clone, Copy, Debug, PartialEq, Eq, Structural)]
pub enum Retry {
    /// The line held no word. Nothing is said.
    Empty,
    /// The prompt was interrupted. The operator is told how to leave.
    Interrupted,
    /// The first word names no command.
    Unrecognized,
}

/// Whether `word` asks to leave the debugger.
pub open spec fn names_quit(word: Seq<char>) -> bool {
    word == "q"@ || word == "quit"@
}

/// Whether `word` asks to start the target.
pub open spec fn names_run(word: Seq<char>) -> bool {
    word == "r"@ || word == "run"@
}

/// Whether `word` asks to resume the target.
pub open spec fn names_continue(word: Seq<char>) -> bool {
    word == "c"@ || word == "cont"@ || word == "continue"@
}

/// Whether `word` asks for the call stack.
pub open spec fn names_backtrace(word: Seq<char>) -> bool {
    word == "bt"@ || word == "back"@ || word == "backtrace"@
}

/// The command that the words of a line stand for: the first word names
/// it, and the words after `run` are the target's arguments.
pub open spec fn command_of(tokens: Seq<String>) -> Option<CommandView> {
    if tokens.len() == 0 {
        None
    } else if names_quit(tokens[0]@) {
        Some(CommandView::Quit)
    } else if names_run(tokens[0]@) {
        Some(CommandView::Run(tokens.skip(1)))
    } else if names_continue(tokens[0]@) {
        Some(CommandView::Continue)
    } else if names_backtrace(tokens[0]@) {
        Some(CommandView::Backtrace)
    } else {
        None
    }
}

/// What an input stands for: a command, or the reason there is none. The
/// end of the input counts as the command to quit.
pub open spec fn reading_of(input: Input) -> Result<CommandView, Retry> {
    match input {
        Input::Interrupted => Err(Retry::Interrupted),
        Input::Eof => Ok(CommandView::Quit),
        Input::Line(tokens) => if tokens@.len() == 0 {
            Err(Retry::Empty)
        } else {
            match command_of(tokens@) {
                Some(command) => Ok(command),
                None => Err(Retry::Unrecognized),
            }
        },
    }
}

/// Whether `token` is the word `word`.
fn is_word(token: &String, word: &str) -> (same: bool)
    ensures
        same == (token@ == word@),
{
    let word = String::from_str(word);
    *token == word
}

impl DebuggerCommand {
    /// Reads a command from the words of a line. Returns `None` for a line
    /// without words and for a first word that names no command.
    pub fn from_tokens(tokens: &Vec<String>) -> (command: Option<DebuggerCommand>)
        ensures
            match command {
                Some(command) => command_of(tokens@) == Some(command@),
                None => command_of(tokens@) is None,
            },
    {
        if tokens.len() == 0 {
            return None;
        }
        let first = &tokens[0];
        if is_word(first, "q") || is_word(first, "quit") {
            Some(DebuggerCommand::Quit)
        } else if is_word(first, "r") || is_word(first, "run") {
            let mut args: Vec<String> = Vec::new();
            let mut i: usize = 1;
            while i < tokens.len()
                invariant
                    1 <= i <= tokens.len(),
                    args@ == tokens@.subrange(1, i as int),
                decreases tokens.len() - i,
            {
                args.push(tokens[i].clone());
                i += 1;
            }
            assert(tokens@.subrange(1, tokens@.len() as int) == tokens@.skip(1));
            Some(DebuggerCommand::Run(args))
        } else if is_word(first, "c") || is_word(first, "cont") || is_word(first, "continue") {
            Some(DebuggerCommand::Continue)
        } else if is_word(first, "bt") || is_word(first, "back") || is_word(first, "backtrace") {
            Some(DebuggerCommand::Backtrace)
        } else {
            None
        }
    }
}

} // verus!
