//! Breaches of the boundary contract, and how they are worded.

use vstd::prelude::*;
use vstd::string::StringExecFns;
use crate::decimal::{integer, natural, push_integer, push_natural};

verus! {

/// A request that must not cross the native boundary, with the value that
/// broke the rule.
///
/// Callers treat every violation as fatal: it marks a programming error, not a
/// condition to recover from.
#[derive(Clone, Copy, Debug, PartialEq, Eq, Structural)]
pub enum Violation {
    /// The engine handed out a null reference where an instance was expected.
    NullHandle,
    /// The handle or snapshot has already given up its native resource.
    Released,
    /// The operation needs a loaded ROM and none has been loaded yet.
    RomNotLoaded,
    /// The action is not in the legal action set.
    IllegalAction { action: i32 },
    /// The mode is not among the available modes.
    InvalidMode { mode: i32 },
    /// The difficulty is not among the available difficulties.
    InvalidDifficulty { difficulty: i32 },
    /// The caller's buffer holds `got` bytes where `required` are written.
    BufferTooSmall { required: usize, got: usize },
    /// The engine reported a negative size.
    InvalidSize { reported: i32 },
    /// The byte count of a screen does not fit the address space.
    SizeOverflow,
    /// A length does not fit the native interface's integer.
    LengthTooLong { len: usize },
    /// A text holds a zero byte at `position`, so it cannot be handed over as
    /// zero-terminated text.
    InteriorNul { position: usize },
    /// What came back is no answer to the call that was asked for.
    UnexpectedReply,
}

impl Violation {
    /// The words for the violation: the rule that was broken, and the value
    /// that broke it.
    pub open spec fn spec_message(self) -> Seq<char> {
        match self {
            Violation::NullHandle => "The engine created no instance"@,
            Violation::Released => "The native resource has been released"@,
            Violation::RomNotLoaded => "No ROM has been loaded"@,
            Violation::IllegalAction { action } => "illegal action: "@ + integer(action as int),
            Violation::InvalidMode { mode } => "Invalid mode: "@ + integer(mode as int),
            Violation::InvalidDifficulty { difficulty } => "Invalid difficulty: "@ + integer(
                difficulty as int,
            ),
            Violation::BufferTooSmall { required, got } => "Buffer not long enough. Expected "@
                + natural(required as nat) + ", got "@ + natural(got as nat),
            Violation::InvalidSize { reported } => "Invalid size: "@ + integer(reported as int),
            Violation::SizeOverflow => "The screen's size is beyond every length"@,
            Violation::LengthTooLong { len } => "Length too long: "@ + natural(len as nat),
            Violation::InteriorNul { position } => "Zero byte in text at position "@ + natural(
                position as nat,
            ),
            Violation::UnexpectedReply => "The engine's answer does not fit the call"@,
        }
    }

    /// Words the violation for a person to read.
    pub fn message(&self) -> (text: String)
        ensures
            text@ == self.spec_message(),
    {
        match *self {
            Violation::NullHandle => String::from_str("The engine created no instance"),
            Violation::Released => String::from_str("The native resource has been released"),
            Violation::RomNotLoaded => String::from_str("No ROM has been loaded"),
            Violation::IllegalAction { action } => {
                let mut text = String::from_str("illegal action: ");
                push_integer(&mut text, action);
                text
            },
            Violation::InvalidMode { mode } => {
                let mut text = String::from_str("Invalid mode: ");
                push_integer(&mut text, mode);
                text
            },
            Violation::InvalidDifficulty { difficulty } => {
                let mut text = String::from_str("Invalid difficulty: ");
                push_integer(&mut text, difficulty);
                text
            },
            Violation::BufferTooSmall { required, got } => {
                let mut text = String::from_str("Buffer not long enough. Expected ");
                push_natural(&mut text, required as u64);
                text.append(", got ");
                push_natural(&mut text, got as u64);
                text
            },
            Violation::InvalidSize { reported } => {
                let mut text = String::from_str("Invalid size: ");
                push_integer(&mut text, reported);
                text
            },
            Violation::SizeOverflow => String::from_str(
                "The screen's size is beyond every length",
            ),
            Violation::LengthTooLong { len } => {
                let mut text = String::from_str("Length too long: ");
                push_natural(&mut text, len as u64);
                text
            },
            Violation::InteriorNul { position } => {
                let mut text = String::from_str("Zero byte in text at position ");
                push_natural(&mut text, position as u64);
                text
            },
            Violation::UnexpectedReply => String::from_str(
                "The engine's answer does not fit the call",
            ),
        }
    }
}

} // verus!
