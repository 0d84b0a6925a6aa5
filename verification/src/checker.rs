//! Check whether a roll result is a success.

use core::str::FromStr;

use vstd::prelude::*;
use vstd::string::StringSliceAdditionalSpecFns;

use crate::error::ParseEnumError;

verus! {

/// Compare operator in a [`Checker`].
#[derive(Debug, Clone, Copy, PartialEq, Eq, Hash, Structural)]
pub enum Compare {
    /// Greater than or equal.
    Gte,
    /// Greater than.
    Gt,
    /// Less than or equal.
    Lte,
    /// Less than.
    Lt,
    /// Equal.
    Eq,
}

/// The compare operator a compare symbol names: `>=`, `>`, `<=`, `<`, `=`
/// and `==`.
pub open spec fn spec_parse_compare(b: Seq<u8>) -> Result<Compare, ParseEnumError> {
    if b.len() == 1 {
        if b[0] == 62 {  // '>'
            Ok(Compare::Gt)
        } else if b[0] == 60 {  // '<'
            Ok(Compare::Lt)
        } else if b[0] == 61 {  // '='
            Ok(Compare::Eq)
        } else {
            Err(ParseEnumError)
        }
    } else if b.len() == 2 && b[1] == 61 {
        if b[0] == 62 {  // ">="
            Ok(Compare::Gte)
        } else if b[0] == 60 {  // "<="
            Ok(Compare::Lte)
        } else if b[0] == 61 {  // "=="
            Ok(Compare::Eq)
        } else {
            Err(ParseEnumError)
        }
    } else {
        Err(ParseEnumError)
    }
}

impl Compare {
    /// Read a compare symbol: `>=`, `>`, `<=`, `<`, `=` or `==`.
    pub fn parse_symbol(s: &str) -> (r: Result<Self, ParseEnumError>)
        ensures
            r == spec_parse_compare(s.spec_bytes()),
    {
        let bytes = s.as_bytes();
        if bytes.len() == 1 {
            let b = bytes[0];
            if b == 62 {
                Ok(Compare::Gt)
            } else if b == 60 {
                Ok(Compare::Lt)
            } else if b == 61 {
                Ok(Compare::Eq)
            } else {
                Err(ParseEnumError)
            }
        } else if bytes.len() == 2 && bytes[1] == 61 {
            let b = bytes[0];
            if b == 62 {
                Ok(Compare::Gte)
            } else if b == 60 {
                Ok(Compare::Lte)
            } else if b == 61 {
                Ok(Compare::Eq)
            } else {
                Err(ParseEnumError)
            }
        } else {
            Err(ParseEnumError)
        }
    }
}

impl FromStr for Compare {
    type Err = ParseEnumError;

    fn from_str(s: &str) -> Result<Self, Self::Err> {
        Self::parse_symbol(s)
    }
}

/// What a checker with compare operator `compare` and target `target` says
/// about a result `value`.
pub open spec fn spec_check(compare: Compare, target: i64, value: i64) -> bool {
    match compare {
        Compare::Gte => value >= target,
        Compare::Gt => value > target,
        Compare::Lte => value <= target,
        Compare::Lt => value < target,
        Compare::Eq => value == target,
    }
}

/// The optional pass/fail judgment at the end of a gurgle command: a compare
/// operator and a target value, applied to the rolled result.
///
/// In the command `3d6 > 10`, `>` is the compare operator and `10` is the
/// target: the roll is a success when the sum of the three dice is greater
/// than 10.
#[derive(Debug, Clone, Copy, PartialEq, Eq, Hash, Structural)]
pub struct Checker {
    /// Wanted compare result.
    pub compare: Compare,
    /// Target value.
    pub target: i64,
}

impl Checker {
    /// Check if a rolling result is a success.
    pub fn check(&self, result: i64) -> (r: bool)
        ensures
            r == spec_check(self.compare, self.target, result),
    {
        if result > self.target {
            matches!(self.compare, Compare::Gte | Compare::Gt)
        } else if result < self.target {
            matches!(self.compare, Compare::Lte | Compare::Lt)
        } else {
            matches!(self.compare, Compare::Gte | Compare::Lte | Compare::Eq)
        }
    }
}

} // verus!
