//! The commands of the command line tool, as values, and what each of them
//! answers. Parsing the arguments and printing the answer are left to the
//! program.

use crate::length::BasicTokenLength;
use crate::seed::is_fresh_seed;
use crate::token::{token_text, BasicToken};
use vstd::prelude::*;

verus! {

/// A parsed command line.
#[derive(Debug)]
pub struct Cli {
    /// The command that was asked for.
    pub command: Commands,
}

/// The commands of the tool.
#[derive(Debug)]
pub enum Commands {
    /// Commands on basic tokens.
    Basic(BasicCommand),
}

/// The commands on basic tokens.
#[derive(Debug)]
pub enum BasicCommand {
    /// Builds a new basic token.
    New {
        /// The length of the token, 112 or 156.
        length: usize,
        /// The client id to build the token with.
        id: String,
        /// The client secret to build the token with.
        secret: String,
    },
}

/// A command that can be carried out.
pub trait Runnable {
    /// Carries the command out and returns the line that answers it.
    fn run(&self) -> String;
}

/// The length class that a command line asks for: the class of that nominal
/// size, and the default class for every other number.
pub open spec fn chosen_length(length: usize) -> BasicTokenLength {
    match BasicTokenLength::classify(length as int) {
        Some(class) => class,
        None => BasicToken::DEFAULT_LENGTH,
    }
}

/// The line that announces a token.
pub open spec fn token_line(token: Seq<char>) -> Seq<char> {
    "Basic token: "@ + token
}

/// Picks the length class that a command line asks for.
pub fn choose_length(length: usize) -> (class: BasicTokenLength)
    ensures
        class == chosen_length(length),
{
    match length {
        112 => BasicTokenLength::Basic112,
        156 => BasicTokenLength::Basic156,
        _ => BasicToken::DEFAULT_LENGTH,
    }
}

/// Writes the line that announces `token`.
pub fn announce(token: &BasicToken) -> (line: String)
    ensures
        line@ == token_line(token@),
{
    let mut line = String::from_str("Basic token: ");
    line.append(token.to_string().as_str());
    line
}

impl BasicCommand {
    /// The answer to the command when the token is built from `seed`.
    pub open spec fn answer(self, seed: Seq<char>) -> Seq<char> {
        match self {
            BasicCommand::New { length, id, secret } => token_line(
                token_text(seed, id@, secret@, chosen_length(length)),
            ),
        }
    }
}

impl Cli {
    /// The answer to the command line when the token is built from `seed`.
    pub open spec fn answer(self, seed: Seq<char>) -> Seq<char> {
        match self.command {
            Commands::Basic(command) => command.answer(seed),
        }
    }
}

impl Runnable for BasicCommand {
    /// Builds the token that was asked for, from a fresh seed, and announces
    /// it.
    fn run(&self) -> (line: String)
        ensures
            exists|seed: Seq<char>| #[trigger] is_fresh_seed(seed) && line@ == self.answer(seed),
    {
        match self {
            BasicCommand::New { length, id, secret } => {
                let length = choose_length(*length);
                let basic = BasicToken::new(id.as_str(), secret.as_str(), length);
                announce(&basic)
            },
        }
    }
}

impl Runnable for Cli {
    /// Carries out the command of the command line.
    fn run(&self) -> (line: String)
        ensures
            exists|seed: Seq<char>| #[trigger] is_fresh_seed(seed) && line@ == self.answer(seed),
    {
        match &self.command {
            Commands::Basic(command) => command.run(),
        }
    }
}

} // verus!
