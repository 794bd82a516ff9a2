//! The chat command grammar.
//!
//! A chat line is a command when it begins with `!hack` and a space. Its
//! words are separated by single spaces; the second word selects what to
//! do, the words after it are arguments. Arguments past those a command
//! takes are ignored.

use crate::text::{ascii, spells, token, token_at};
use vstd::prelude::*;
use vstd::string::*;

verus! {

/// Why a chat line that begins like a command is not one.
#[derive(Clone, Copy, Debug, PartialEq, Eq)]
pub enum CommandError {
    /// The second word names no command.
    UnknownCommand,
    /// The command takes more arguments than the line has words.
    MissingArgument,
    /// An argument that has to be a number spells none.
    MalformedNumber,
}

/// A well-formed command.
#[derive(Debug, PartialEq, Eq)]
pub enum Command {
    /// Flip position logging.
    TogglePosition,
    /// Flip velocity logging.
    ToggleVelocity,
    /// Flip float mode.
    ToggleFloat,
    /// Move to the coordinates that the three words spell.
    Teleport { x: Vec<u8>, y: Vec<u8>, z: Vec<u8> },
    /// Travel between two zones. Both names end in NUL.
    FastTravel { from: Vec<u8>, to: Vec<u8> },
}

/// What a command says, with its words as byte sequences.
pub enum Intent {
    TogglePosition,
    ToggleVelocity,
    ToggleFloat,
    Teleport { x: Seq<u8>, y: Seq<u8>, z: Seq<u8> },
    FastTravel { from: Seq<u8>, to: Seq<u8> },
}

impl View for Command {
    type V = Intent;

    open spec fn view(&self) -> Intent {
        match self {
            Command::TogglePosition => Intent::TogglePosition,
            Command::ToggleVelocity => Intent::ToggleVelocity,
            Command::ToggleFloat => Intent::ToggleFloat,
            Command::Teleport { x, y, z } => Intent::Teleport { x: x@, y: y@, z: z@ },
            Command::FastTravel { from, to } => Intent::FastTravel { from: from@, to: to@ },
        }
    }
}

/// Whether a chat line is addressed to this layer rather than to the chat.
pub open spec fn is_command(text: Seq<u8>) -> bool {
    ascii("!hack "@).is_prefix_of(text)
}

/// What a command line asks for.
pub open spec fn intent(text: Seq<u8>) -> Result<Intent, CommandError> {
    let word = token(text, 1);
    if word == Some(ascii("position"@)) {
        Ok(Intent::TogglePosition)
    } else if word == Some(ascii("velocity"@)) {
        Ok(Intent::ToggleVelocity)
    } else if word == Some(ascii("float"@)) {
        Ok(Intent::ToggleFloat)
    } else if word == Some(ascii("tp"@)) {
        match (token(text, 2), token(text, 3), token(text, 4)) {
            (Some(x), Some(y), Some(z)) => Ok(Intent::Teleport { x, y, z }),
            _ => Err(CommandError::MissingArgument),
        }
    } else if word == Some(ascii("ft"@)) {
        match (token(text, 2), token(text, 3)) {
            (Some(from), Some(to)) => Ok(
                Intent::FastTravel { from: from.push(0), to: to.push(0) },
            ),
            _ => Err(CommandError::MissingArgument),
        }
    } else {
        Err(CommandError::UnknownCommand)
    }
}

/// What a chat line asks for: nothing if it is ordinary chat, else the
/// command it spells or the reason it spells none.
pub open spec fn reading(text: Seq<u8>) -> Result<Option<Intent>, CommandError> {
    if is_command(text) {
        match intent(text) {
            Ok(i) => Ok(Some(i)),
            Err(e) => Err(e),
        }
    } else {
        Ok(None)
    }
}

/// Whether `text` begins with `prefix`.
pub fn starts_with(text: &[u8], prefix: &[u8]) -> (found: bool)
    ensures
        found == prefix@.is_prefix_of(text@),
{
    if text.len() < prefix.len() {
        return false;
    }
    let mut i: usize = 0;
    while i < prefix.len()
        invariant
            prefix@.len() <= text@.len(),
            i <= prefix@.len(),
            forall|j: int| 0 <= j < i ==> text@[j] == prefix@[j],
        decreases prefix@.len() - i,
    {
        if text[i] != prefix[i] {
            assert(text@.subrange(0, prefix@.len() as int)[i as int] != prefix@[i as int]);
            return false;
        }
        i = i + 1;
    }
    assert(text@.subrange(0, prefix@.len() as int) =~= prefix@);
    true
}

proof fn keywords_are_ascii()
    ensures
        is_ascii("!hack "),
        is_ascii("position"),
        is_ascii("velocity"),
        is_ascii("float"),
        is_ascii("tp"),
        is_ascii("ft"),
{
    reveal_strlit("!hack ");
    reveal_strlit("position");
    reveal_strlit("velocity");
    reveal_strlit("float");
    reveal_strlit("tp");
    reveal_strlit("ft");
}

/// Reads a chat line: `Ok(None)` for ordinary chat, the command for a
/// well-formed command line, and the error for a line that begins like a
/// command and is none.
pub fn parse(text: &[u8]) -> (read: Result<Option<Command>, CommandError>)
    ensures
        match read {
            Ok(Some(command)) => reading(text@) == Ok::<Option<Intent>, CommandError>(
                Some(command@),
            ),
            Ok(None) => reading(text@) == Ok::<Option<Intent>, CommandError>(None),
            Err(e) => reading(text@) == Err::<Option<Intent>, CommandError>(e),
        },
{
    proof {
        keywords_are_ascii();
        is_ascii_spec_bytes("!hack ");
    }
    if !starts_with(text, "!hack ".as_bytes()) {
        return Ok(None);
    }
    let word = match token_at(text, 1) {
        Some(word) => word,
        None => {
            return Err(CommandError::UnknownCommand);
        },
    };
    if spells(word.as_slice(), "position") {
        Ok(Some(Command::TogglePosition))
    } else if spells(word.as_slice(), "velocity") {
        Ok(Some(Command::ToggleVelocity))
    } else if spells(word.as_slice(), "float") {
        Ok(Some(Command::ToggleFloat))
    } else if spells(word.as_slice(), "tp") {
        match (token_at(text, 2), token_at(text, 3), token_at(text, 4)) {
            (Some(x), Some(y), Some(z)) => Ok(Some(Command::Teleport { x, y, z })),
            _ => Err(CommandError::MissingArgument),
        }
    } else if spells(word.as_slice(), "ft") {
        match (token_at(text, 2), token_at(text, 3)) {
            (Some(from), Some(to)) => {
                let mut from = from;
                let mut to = to;
                from.push(0);
                to.push(0);
                Ok(Some(Command::FastTravel { from, to }))
            },
            _ => Err(CommandError::MissingArgument),
        }
    } else {
        Err(CommandError::UnknownCommand)
    }
}

} // verus!
