//! The command to run: an executable and its arguments.

use vstd::prelude::*;
use crate::error::ReceiptError;

verus! {

/// The texts of a sequence of strings, in order.
pub open spec fn texts(strings: Seq<String>) -> Seq<Seq<char>> {
    strings.map_values(|s: String| s@)
}

/// What a `CommandLine` denotes.
pub struct CommandLineView {
    pub program: Seq<char>,
    pub args: Seq<Seq<char>>,
}

/// An executable, by name or path as it was given, and the arguments to hand to
/// it. No token is interpreted: each reaches the executable as it stands.
#[derive(Clone, Debug, PartialEq, Eq)]
pub struct CommandLine {
    pub program: String,
    pub args: Vec<String>,
}

impl View for CommandLine {
    type V = CommandLineView;

    open spec fn view(&self) -> CommandLineView {
        CommandLineView { program: self.program@, args: texts(self.args@) }
    }
}

/// The command that a sequence of tokens names: the first token is the
/// executable, the others are its arguments in order. No tokens, no command.
pub open spec fn command_of(tokens: Seq<Seq<char>>) -> Option<CommandLineView> {
    if tokens.len() == 0 {
        None
    } else {
        Some(CommandLineView { program: tokens[0], args: tokens.subrange(1, tokens.len() as int) })
    }
}

impl CommandLine {
    /// Splits the tokens into the executable and its arguments. With no token
    /// there is nothing to run, which is a usage error.
    pub fn from_tokens(tokens: Vec<String>) -> (parsed: Result<CommandLine, ReceiptError>)
        ensures
            match parsed {
                Ok(command) => command_of(texts(tokens@)) == Some(command@),
                Err(e) => tokens@.len() == 0 && e == ReceiptError::Usage,
            },
            parsed matches Ok(command) ==> command.args@.len() + 1 == tokens@.len(),
    {
        let mut tokens = tokens;
        let ghost given = tokens@;
        if tokens.len() == 0 {
            return Err(ReceiptError::Usage);
        }
        let program = tokens.remove(0);
        assert(texts(tokens@) =~= texts(given).subrange(1, given.len() as int));
        Ok(CommandLine { program, args: tokens })
    }
}

} // verus!
