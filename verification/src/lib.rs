//! Fudge dice and ballots for a chat bot: the rules, without the network.
//!
//! The bot answers two commands. `rollfate` rolls Fudge dice and reports them
//! on the ladder of ranks; `ballot` opens the form for a new poll. What is
//! here decides and computes on plain values; talking to the chat service is
//! left to the program around it.

use crate::ballot::VotingTypeEmoji;
use crate::text::same_text;
use vstd::prelude::*;

pub mod ballot;
pub mod decimal;
pub mod dice;
pub mod options;
pub mod random;
pub mod rank;
pub mod rollfate;
pub mod text;

verus! {

/// Where the marks of the ways of voting are looked up.
#[derive(Clone, Copy, Debug, PartialEq, Eq, Structural)]
pub struct EmojiStore;

impl EmojiStore {
    /// The mark that `emoji` is shown with. All four ways of voting share
    /// one mark, the envelope.
    pub fn get_emoji(&self, emoji: VotingTypeEmoji) -> (mark: char)
        ensures
            mark == '\u{2709}',
    {
        '\u{2709}'
    }

    /// A store of marks.
    pub fn new() -> (store: Self)
        ensures
            store == EmojiStore,
    {
        Self
    }
}

/// A command that the bot knows, or `Unknown` for any other.
#[derive(Clone, Copy, Debug, PartialEq, Eq, Structural)]
pub enum Command {
    Ballot,
    RollFate,
    Unknown,
}

/// The command that goes by `name`.
pub open spec fn command_named(name: Seq<char>) -> Command {
    if name == "ballot"@ {
        Command::Ballot
    } else if name == "rollfate"@ {
        Command::RollFate
    } else {
        Command::Unknown
    }
}

/// What the bot says back to a chat message, if anything: `world!` to
/// `!hello`, and nothing to any other.
pub open spec fn reply_to_message(content: Seq<char>) -> Option<Seq<char>> {
    if content == "!hello"@ {
        Some("world!"@)
    } else {
        None
    }
}

/// The bot: what it decides, apart from how it is connected.
#[derive(Clone, Copy, Debug, PartialEq, Eq, Structural)]
pub struct Bot {
    pub emojis: EmojiStore,
}

impl Bot {
    /// A bot with its store of marks.
    pub fn new() -> (bot: Self)
        ensures
            bot == (Bot { emojis: EmojiStore }),
    {
        Self { emojis: EmojiStore::new() }
    }

    /// What to say back to a chat message, if anything.
    pub fn message(&self, content: &str) -> (reply: Option<&'static str>)
        ensures
            match reply {
                Some(text) => reply_to_message(content@) == Some(text@),
                None => reply_to_message(content@) is None,
            },
    {
        if same_text(content, "!hello") {
            Some("world!")
        } else {
            None
        }
    }

    /// Which command goes by `name`.
    pub fn handle_command(&self, name: &str) -> (command: Command)
        ensures
            command == command_named(name@),
    {
        if same_text(name, "ballot") {
            Command::Ballot
        } else if same_text(name, "rollfate") {
            Command::RollFate
        } else {
            Command::Unknown
        }
    }

    /// What to say back to a command that the bot does not know.
    pub fn unknown_command_reply(&self) -> (reply: &'static str)
        ensures
            reply@ == "That command is not known!"@,
    {
        "That command is not known!"
    }
}

} // verus!
