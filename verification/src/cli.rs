//! The command line, once it is parsed.

use vstd::prelude::*;

verus! {

/// What the program can be asked to do.
#[derive(Debug, PartialEq, Eq)]
pub enum Commands {
    /// Start a chat session.
    Chat {
        /// What the user says first.
        prompt: Option<String>,
    },
}

/// The arguments of the program.
#[derive(Debug, PartialEq, Eq)]
pub struct Cli {
    /// What to do. Without a command the program chats.
    pub command: Option<Commands>,
    /// Whether to say more about what is going on.
    pub verbose: bool,
}

impl Cli {
    /// What the session starts with: the prompt of the chat command, and
    /// nothing where no prompt or no command was given.
    pub open spec fn initial_prompt_text(self) -> Seq<char> {
        match self.command {
            Some(Commands::Chat { prompt: Some(prompt) }) => prompt@,
            _ => Seq::empty(),
        }
    }

    /// What the session starts with: the prompt of the chat command, and
    /// nothing where no prompt or no command was given.
    pub fn initial_prompt(self) -> (prompt: String)
        ensures
            prompt@ == self.initial_prompt_text(),
    {
        match self.command {
            Some(Commands::Chat { prompt: Some(prompt) }) => prompt,
            _ => String::new(),
        }
    }
}

} // verus!
