//! Rolling dice using TRPG-like syntax.
//!
//! A gurgle command is a dice expression (for example `3d6max+2d4+1`)
//! optionally followed by a checker (for example `>15`). Compiling a
//! command validates it against a limits configuration and produces a
//! syntax tree; rolling the tree draws the dice and computes the result
//! value.
//!
//! ## Command syntax
//!
//! A dice expression adds, subtracts and multiplies items, where an item is
//! a plain number, a dice round written `<times>d<sides>`, or a
//! parenthesized sub-expression; `*` binds tighter than `+` and `-`, and
//! operators of equal binding power combine left to right. A dice round may
//! carry a keyword — `sum` (the default), `avg`, `max` or `min` — saying
//! how its points collapse to one number. The optional checker is a compare
//! symbol (`>=`, `>`, `<=`, `<`, `=`, `==`) and a target number; it judges
//! the rolled result.
//!
//! - `3d6`, `3d6+1`, `3d6max+2d4max+1`, `2d10-3d2-1`, `(1+2)*3` compile;
//! - `3d6 max` does not: spaces may stand between items and operators,
//!   not inside an item;
//! - `0d6` and `3d-1` compile only as far as the grammar: both counts of a
//!   dice must be positive, so they are rejected with
//!   [`CompileError::DiceRollOrSidedNegative`].
//!
//! A full example: `3d6+2d4+1 > 10`.

pub mod checker;
pub mod config;
pub mod detail;
pub mod error;
pub mod expr;
pub mod parser;
mod random;
pub mod roll;
pub mod tree;

use vstd::prelude::*;
use vstd::string::StringSliceAdditionalSpecFns;

use crate::checker::Checker;
use crate::config::{default_config, Config};
use crate::error::CompileError;
use crate::expr::{node_dice_ok, AstTreeNode};
use crate::parser::{compile_bytes, spec_compile, syntax_message, CommandStep};
use crate::roll::{
    lemma_const_eval, node_const_value, roll_node_value, rolled_node_matches, GurgleRoll,
    RollTreeNode,
};

verus! {

/// A compiled gurgle command: the expression tree and the optional checker.
#[derive(Debug, Clone, PartialEq, Eq, Hash)]
pub struct Gurgle {
    expr: AstTreeNode,
    checker: Option<Checker>,
}

/// What a compile call must return: exactly what [`spec_compile`] says of
/// the input bytes under the given configuration — the compiled command on
/// `Done`, the same error on `Fail`, and on `Stuck` an
/// [`InvalidSyntax`](CompileError::InvalidSyntax) error carrying
/// [`syntax_message`]. The result is a function of the bytes and the
/// configuration alone, so compiling with the default configuration and
/// [`Gurgle::compile`] agree on every input.
pub open spec fn compile_matches(
    bytes: Seq<u8>,
    cfg: Config,
    r: Result<Gurgle, CompileError>,
) -> bool {
    match r {
        Ok(g) => (spec_compile(bytes, cfg) matches CommandStep::Done { expr, checker }
            && g.expr_spec() == expr && g.checker_spec() == checker) && g.wf(),
        Err(e) => match spec_compile(bytes, cfg) {
            CommandStep::Stuck => e matches CompileError::InvalidSyntax(m) && m@
                == syntax_message(bytes),
            CommandStep::Fail(f) => e == f,
            CommandStep::Done { .. } => false,
        },
    }
}

impl Gurgle {
    /// The compiled expression tree.
    pub closed spec fn expr_spec(&self) -> AstTreeNode {
        self.expr
    }

    /// The compiled checker, if the command had one.
    pub closed spec fn checker_spec(&self) -> Option<Checker> {
        self.checker
    }

    /// Every dice of a compiled command has positive roll times and side
    /// count: compilation checked them.
    pub open spec fn wf(&self) -> bool {
        node_dice_ok(self.expr_spec())
    }

    /// Compile string `s` to a gurgle command, with a custom limits
    /// configuration.
    ///
    /// ## Errors
    ///
    /// When `s` does not match the gurgle grammar, a numeric literal does
    /// not fit, or a limit of `config` is exceeded — exactly as
    /// [`compile_matches`] states.
    pub fn compile_with_config(s: &str, config: &Config) -> (r: Result<Self, CompileError>)
        ensures
            compile_matches(s.spec_bytes(), *config, r),
    {
        let bytes = s.as_bytes();
        match compile_bytes(bytes, config) {
            Ok((expr, checker)) => Ok(Self { expr, checker }),
            Err(e) => Err(e),
        }
    }

    /// Compile string `s` to a gurgle command, using the default
    /// configuration.
    ///
    /// ## Errors
    ///
    /// See [`Gurgle::compile_with_config`].
    pub fn compile(s: &str) -> (r: Result<Self, CompileError>)
        ensures
            compile_matches(s.spec_bytes(), default_config(), r),
    {
        let config = Config::default();
        Self::compile_with_config(s, &config)
    }

    /// Get the expression syntax tree root, for walking through.
    pub fn expr(&self) -> (r: &AstTreeNode)
        ensures
            *r == self.expr_spec(),
    {
        &self.expr
    }

    /// Get the checker.
    pub fn checker(&self) -> (r: Option<&Checker>)
        ensures
            match r {
                Some(c) => self.checker_spec() == Some(*c),
                None => self.checker_spec() is None,
            },
    {
        self.checker.as_ref()
    }

    /// Roll the compiled command and get the result: every dice is drawn
    /// once, the result value is computed and stored, and the checker is
    /// carried along for the success judgment.
    pub fn roll(&self) -> (r: GurgleRoll<'_>)
        requires
            self.wf(),
        ensures
            rolled_node_matches(self.expr_spec(), r.expr_spec()),
            r.value_spec() == roll_node_value(r.expr_spec()),
            r.checker_spec() == self.checker_spec(),
    {
        GurgleRoll::new(self.expr.roll(), self.checker())
    }
}

/// Compile and execute a gurgle command immediately, and get the result
/// value.
///
/// This function only gives the dice result value, not the check result.
/// For the success check, use [`Gurgle::roll`] instead. The returned value
/// is the value of one fresh roll of the compiled command: some rolled
/// tree that matches the compiled expression carries exactly this value.
/// For an expression whose items are all plain numbers the value is
/// deterministic: the direct arithmetic value of the literals.
///
/// ## Errors
///
/// If compiling `s` fails, see [`Gurgle::compile`].
pub fn roll(s: &str) -> (r: Result<i64, CompileError>)
    ensures
        match spec_compile(s.spec_bytes(), default_config()) {
            CommandStep::Done { expr, .. } => r matches Ok(v) && (exists|rt: RollTreeNode|
                #[trigger] rolled_node_matches(expr, rt) && roll_node_value(rt) == v) && (
            node_const_value(expr) matches Some(cv) ==> v == cv),
            CommandStep::Stuck => r matches Err(e) && e matches CompileError::InvalidSyntax(m)
                && m@ == syntax_message(s.spec_bytes()),
            CommandStep::Fail(f) => r == Err::<i64, CompileError>(f),
        },
{
    match Gurgle::compile(s) {
        Err(e) => Err(e),
        Ok(g) => {
            let rolled = g.roll();
            let v = rolled.value();
            proof {
                assert(rolled_node_matches(g.expr_spec(), rolled.expr_spec())
                    && roll_node_value(rolled.expr_spec()) == v);
                if node_const_value(g.expr_spec()) is Some {
                    lemma_const_eval(g.expr_spec(), rolled.expr_spec());
                }
            }
            Ok(v)
        },
    }
}

} // verus!
