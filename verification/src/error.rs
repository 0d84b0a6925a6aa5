//! Errors reported while compiling a gurgle command.

use vstd::prelude::*;

verus! {

/// A string could not be read as a variant of one of the small enums
/// (post processor keyword, operator symbol, compare symbol).
#[derive(Debug, Clone, Copy, PartialEq, Eq, PartialOrd, Ord, Hash, Default)]
pub struct ParseEnumError;

/// Where a numeric literal stands in the input: `neg` says whether the
/// literal carries a minus sign, and `[lo, hi)` is the byte range of its
/// digits.
#[derive(Debug, Clone, Copy, PartialEq, Eq, Structural)]
pub struct LiteralSpan {
    /// Whether the literal carries a minus sign.
    pub neg: bool,
    /// Byte offset of the first digit.
    pub lo: usize,
    /// Byte offset just past the last digit.
    pub hi: usize,
}

/// Compiling a string to a gurgle command failed.
#[derive(Debug, Clone, PartialEq, Eq)]
pub enum CompileError {
    /// The input does not match the gurgle grammar; the payload describes
    /// the failure.
    InvalidSyntax(String),
    /// A numeric literal does not fit a signed 64 bit integer; the payload
    /// points at the offending literal.
    ParseNumberError(LiteralSpan),
    /// A dice roll count or side count is zero or negative.
    DiceRollOrSidedNegative,
    /// The sum of roll times over the whole expression, or a single dice's
    /// roll times, exceeds the configured maximum.
    DiceRollTimesLimitExceeded,
    /// A dice has more sides than the configured maximum.
    DiceSidedCountLimitExceeded,
    /// The expression holds more items than the configured maximum.
    ItemCountLimitExceeded,
    /// A number item's magnitude exceeds the configured maximum.
    NumberItemOutOfRange,
}

impl CompileError {
    /// A short human-readable description of the error.
    pub fn message(&self) -> (r: &'static str)
        ensures
            r@ == self.message_spec(),
    {
        match self {
            CompileError::InvalidSyntax(_) => "invalid gurgle syntax",
            CompileError::ParseNumberError(_) => "command contains invalid number",
            CompileError::DiceRollOrSidedNegative => "roll times or sides can't be negative",
            CompileError::DiceRollTimesLimitExceeded => "dice roll times limit exceeded",
            CompileError::DiceSidedCountLimitExceeded => "dice sides count limit exceeded",
            CompileError::ItemCountLimitExceeded => "items count limit exceeded",
            CompileError::NumberItemOutOfRange => "number item out of range",
        }
    }

    /// What `message` returns, as a sequence of characters.
    pub open spec fn message_spec(&self) -> Seq<char> {
        match self {
            CompileError::InvalidSyntax(_) => "invalid gurgle syntax"@,
            CompileError::ParseNumberError(_) => "command contains invalid number"@,
            CompileError::DiceRollOrSidedNegative => "roll times or sides can't be negative"@,
            CompileError::DiceRollTimesLimitExceeded => "dice roll times limit exceeded"@,
            CompileError::DiceSidedCountLimitExceeded => "dice sides count limit exceeded"@,
            CompileError::ItemCountLimitExceeded => "items count limit exceeded"@,
            CompileError::NumberItemOutOfRange => "number item out of range"@,
        }
    }
}

} // verus!
