//! Gurgle expression: the compiled syntax tree and its rolling.

use core::str::FromStr;

use vstd::prelude::*;
use vstd::string::StringSliceAdditionalSpecFns;

use crate::error::ParseEnumError;
use crate::parser::{keyword_pp, keyword_pp_exec};
use crate::random::roll_point;
use crate::roll::{
    reduce_points, rolled_item_matches, rolled_node_matches, rolled_tree_matches, DiceRoll,
    ItemRoll, RollTree, RollTreeNode,
};
use crate::tree::{BinaryTree, BinaryTreeNode};

verus! {

/// Post processing action after a round of dice roll.
///
/// - `3d6` defaults to the sum of rolling a 6-sided dice 3 times
/// - `3d6max` means taking the max of those 3 results
/// - `3d6min` means taking the min of those 3 results
/// - `3d6avg` means taking the average of those 3 results, rounded down
#[derive(Debug, Clone, Copy, PartialEq, Eq, Hash, Structural)]
pub enum PostProcessor {
    /// Sum of all rolls, the default action.
    Sum,
    /// Average value of all rolls, rounded down when not divisible.
    Avg,
    /// Max value of all rolls.
    Max,
    /// Min value of all rolls.
    Min,
}

impl PostProcessor {
    /// Read a post processor keyword: `sum`, `avg`, `max` or `min`, case
    /// insensitively. Anything else, the empty string included, is no
    /// keyword.
    pub fn parse_keyword(s: &str) -> (r: Result<Self, ParseEnumError>)
        ensures
            r == (if s.spec_bytes().len() == 0 {
                Err::<PostProcessor, ParseEnumError>(ParseEnumError)
            } else {
                match keyword_pp(s.spec_bytes(), 0, s.spec_bytes().len() as int) {
                    Some(pp) => Ok::<PostProcessor, ParseEnumError>(pp),
                    None => Err::<PostProcessor, ParseEnumError>(ParseEnumError),
                }
            }),
    {
        let bytes = s.as_bytes();
        if bytes.len() == 0 {
            return Err(ParseEnumError);
        }
        match keyword_pp_exec(bytes, 0, bytes.len()) {
            Some(pp) => Ok(pp),
            None => Err(ParseEnumError),
        }
    }
}

impl FromStr for PostProcessor {
    type Err = ParseEnumError;

    fn from_str(s: &str) -> Result<Self, Self::Err> {
        Self::parse_keyword(s)
    }
}

/// Rule of a round of dice roll.
#[derive(Debug, Clone, Copy, PartialEq, Eq, Hash, Structural)]
pub struct Dice {
    /// Roll the dice how many times.
    pub times: u64,
    /// Side count of this dice.
    pub sided: u64,
    /// Post processing action after all rolls, see [`PostProcessor`].
    pub pp: PostProcessor,
}

impl Dice {
    /// Create a rule that rolls an `m`-sided dice `n` times, with the
    /// default post processor [`PostProcessor::Sum`].
    pub fn new(n: u64, m: u64) -> (r: Self)
        ensures
            r == (Dice { times: n, sided: m, pp: PostProcessor::Sum }),
    {
        Self::new_with_pp(n, m, PostProcessor::Sum)
    }

    /// Create a rule that rolls an `m`-sided dice `n` times, with post
    /// processor `pp`.
    pub fn new_with_pp(n: u64, m: u64, pp: PostProcessor) -> (r: Self)
        ensures
            r == (Dice { times: n, sided: m, pp }),
    {
        Self { times: n, sided: m, pp }
    }

    /// Roll a round of dice and get a result: `times` draws, each in
    /// `[1, sided]`, with the reduced value computed eagerly.
    pub fn roll(&self) -> (r: DiceRoll)
        requires
            self.times >= 1,
            self.sided >= 1,
        ensures
            r.points_spec().len() == self.times,
            forall|i: int|
                0 <= i < r.points_spec().len() ==> 1 <= #[trigger] r.points_spec()[i]
                    <= self.sided,
            r.pp_spec() == self.pp,
            r.value_spec() == reduce_points(r.points_spec(), self.pp),
    {
        let mut points: Vec<u64> = Vec::new();
        let mut i: u64 = 0;
        while i < self.times
            invariant
                0 <= i <= self.times,
                self.sided >= 1,
                points@.len() == i,
                forall|j: int|
                    0 <= j < points@.len() ==> 1 <= #[trigger] points@[j] <= self.sided,
            decreases self.times - i,
        {
            points.push(roll_point(self.sided));
            i = i + 1;
        }
        DiceRoll::new(points, self.pp)
    }
}

/// Item in a gurgle expression: a number, a dice, or a wrapped sub-expression.
#[derive(Debug, PartialEq, Eq, Hash)]
pub enum Item {
    /// A plain number.
    Number(i64),
    /// A dice.
    Dice(Dice),
    /// Another expression wrapped by parentheses.
    Parentheses(Box<AstTreeNode>),
}

fn clone_ast_node(n: &AstTreeNode) -> (r: AstTreeNode)
    ensures
        r == *n,
    decreases *n,
{
    match n {
        BinaryTreeNode::Leaf(item) => BinaryTreeNode::Leaf(clone_item(item)),
        BinaryTreeNode::Tree(t) => BinaryTreeNode::Tree(
            BinaryTree {
                left: Box::new(clone_ast_node(&t.left)),
                mid: t.mid,
                right: Box::new(clone_ast_node(&t.right)),
            },
        ),
    }
}

fn clone_item(item: &Item) -> (r: Item)
    ensures
        r == *item,
    decreases *item,
{
    match item {
        Item::Number(x) => Item::Number(*x),
        Item::Dice(d) => Item::Dice(*d),
        Item::Parentheses(e) => Item::Parentheses(Box::new(clone_ast_node(e))),
    }
}

impl Clone for Item {
    fn clone(&self) -> (r: Self)
        ensures
            r == *self,
    {
        clone_item(self)
    }
}

/// Every dice below this item has positive roll times and side count.
pub open spec fn item_dice_ok(item: Item) -> bool
    decreases item,
{
    match item {
        Item::Number(_) => true,
        Item::Dice(d) => d.times >= 1 && d.sided >= 1,
        Item::Parentheses(e) => node_dice_ok(*e),
    }
}

/// Every dice below this node has positive roll times and side count.
pub open spec fn node_dice_ok(node: AstTreeNode) -> bool
    decreases node,
{
    match node {
        BinaryTreeNode::Leaf(item) => item_dice_ok(item),
        BinaryTreeNode::Tree(tree) => tree_dice_ok(tree),
    }
}

/// Every dice below this tree has positive roll times and side count.
pub open spec fn tree_dice_ok(tree: AstTree) -> bool
    decreases tree,
{
    node_dice_ok(*tree.left) && node_dice_ok(*tree.right)
}

impl Item {
    /// Get a roll result for this item.
    pub fn roll(&self) -> (r: ItemRoll)
        requires
            item_dice_ok(*self),
        ensures
            rolled_item_matches(*self, r),
        decreases *self,
    {
        match self {
            Item::Dice(d) => ItemRoll::Dice(d.roll()),
            Item::Number(x) => ItemRoll::Number(*x),
            Item::Parentheses(e) => ItemRoll::Parentheses(Box::new(e.roll())),
        }
    }

    /// Check if this item is a number.
    pub fn is_number(&self) -> (r: bool)
        ensures
            r == (self is Number),
    {
        matches!(self, Item::Number(_))
    }

    /// Check if this item is a dice.
    pub fn is_dice(&self) -> (r: bool)
        ensures
            r == (self is Dice),
    {
        matches!(self, Item::Dice(_))
    }

    /// Check if this item is a wrapped sub-expression.
    pub fn is_expr(&self) -> (r: bool)
        ensures
            r == (self is Parentheses),
    {
        matches!(self, Item::Parentheses(_))
    }

    /// Try to treat this item as a number.
    pub fn as_number(&self) -> (r: Option<i64>)
        ensures
            match r {
                Some(x) => self matches Item::Number(y) && x == y,
                None => !(self is Number),
            },
    {
        match self {
            Item::Number(x) => Some(*x),
            _ => None,
        }
    }

    /// Try to treat this item as a dice.
    pub fn as_dice(&self) -> (r: Option<&Dice>)
        ensures
            match r {
                Some(d) => self matches Item::Dice(e) && d == e,
                None => !(self is Dice),
            },
    {
        match self {
            Item::Dice(dice) => Some(dice),
            _ => None,
        }
    }

    /// Try to treat this item as a wrapped sub-expression.
    pub fn as_expr(&self) -> (r: Option<&AstTreeNode>)
        ensures
            match r {
                Some(e) => self matches Item::Parentheses(b) && e == &**b,
                None => !(self is Parentheses),
            },
    {
        match self {
            Item::Parentheses(e) => Some(e),
            _ => None,
        }
    }
}

/// Operator in a gurgle expression.
#[derive(Debug, Clone, Copy, PartialEq, Eq, Hash, Structural)]
pub enum Operator {
    /// Add the left tree result and the right tree result.
    Add,
    /// Subtract the right tree result from the left result.
    Minus,
    /// Multiply the left tree result with the right tree result.
    Multiply,
}

/// The operator an operator symbol names: `+`, `-`, and `*` (with `x` as
/// an alias for `*`).
pub open spec fn spec_parse_operator(b: Seq<u8>) -> Result<Operator, ParseEnumError> {
    if b.len() == 1 {
        if b[0] == 43 {  // '+'
            Ok(Operator::Add)
        } else if b[0] == 45 {  // '-'
            Ok(Operator::Minus)
        } else if b[0] == 42 || b[0] == 120 {  // '*' or 'x'
            Ok(Operator::Multiply)
        } else {
            Err(ParseEnumError)
        }
    } else {
        Err(ParseEnumError)
    }
}

impl Operator {
    /// Read an operator symbol: `+`, `-`, or `*` (also written `x`).
    pub fn parse_symbol(s: &str) -> (r: Result<Self, ParseEnumError>)
        ensures
            r == spec_parse_operator(s.spec_bytes()),
    {
        let bytes = s.as_bytes();
        if bytes.len() != 1 {
            return Err(ParseEnumError);
        }
        let b = bytes[0];
        if b == 43 {
            Ok(Operator::Add)
        } else if b == 45 {
            Ok(Operator::Minus)
        } else if b == 42 || b == 120 {
            Ok(Operator::Multiply)
        } else {
            Err(ParseEnumError)
        }
    }
}

impl FromStr for Operator {
    type Err = ParseEnumError;

    fn from_str(s: &str) -> Result<Self, Self::Err> {
        Self::parse_symbol(s)
    }
}

/// Abstract syntax tree of a gurgle expression.
pub type AstTree = BinaryTree<Item, Operator>;

/// Abstract syntax tree node: a leaf item or a subtree.
pub type AstTreeNode = BinaryTreeNode<Item, Operator>;

impl AstTree {
    /// Roll every dice below this tree: both children are rolled, and the
    /// new tree keeps this tree's operator.
    pub fn roll(&self) -> (r: RollTree)
        requires
            tree_dice_ok(*self),
        ensures
            rolled_tree_matches(*self, r),
        decreases *self,
    {
        let left = self.left.roll();
        let right = self.right.roll();
        RollTree::new(left, right, self.mid)
    }
}

impl AstTreeNode {
    /// Roll every dice below this node.
    pub fn roll(&self) -> (r: RollTreeNode)
        requires
            node_dice_ok(*self),
        ensures
            rolled_node_matches(*self, r),
        decreases *self,
    {
        match self {
            BinaryTreeNode::Leaf(item) => BinaryTreeNode::Leaf(item.roll()),
            BinaryTreeNode::Tree(tree) => BinaryTreeNode::Tree(tree.roll()),
        }
    }
}

} // verus!
