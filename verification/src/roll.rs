//! Rolling results.
//!
//! The result tree mirrors the compiled expression tree. A dice round's
//! reduced value and the whole command's result value are computed once,
//! when the roll is built, and stored in a private write-once slot: every
//! later read returns the identical number. An inner node's value is a
//! pure function of its children, so repeated reads of the same tree are
//! identical too. Arithmetic uses wrapping 64-bit operations; the
//! configured limits keep real commands far away from the wrap.

use vstd::prelude::*;

use crate::checker::{spec_check, Checker};
use crate::expr::{AstTree, AstTreeNode, Item, Operator, PostProcessor};
use crate::tree::{BinaryTree, BinaryTreeNode};
use vstd::arithmetic::div_mod::{lemma_div_by_self, lemma_div_is_ordered, lemma_multiply_divide_le};

verus! {

/// Sum of the points, wrapping on overflow.
pub open spec fn sum_points(s: Seq<u64>) -> u64
    decreases s.len(),
{
    if s.len() == 0 {
        0u64
    } else {
        vstd::wrapping::u64_specs::wrapping_add(sum_points(s.drop_last()), s.last())
    }
}

/// Sum of the points as a mathematical integer (no wrapping).
pub open spec fn sum_int(s: Seq<u64>) -> int
    decreases s.len(),
{
    if s.len() == 0 {
        0
    } else {
        sum_int(s.drop_last()) + s.last()
    }
}

/// Largest point; 0 for an empty sequence.
pub open spec fn max_points(s: Seq<u64>) -> u64
    decreases s.len(),
{
    if s.len() == 0 {
        0u64
    } else if s.len() == 1 {
        s[0]
    } else {
        let m = max_points(s.drop_last());
        if s.last() > m {
            s.last()
        } else {
            m
        }
    }
}

/// Smallest point; 0 for an empty sequence.
pub open spec fn min_points(s: Seq<u64>) -> u64
    decreases s.len(),
{
    if s.len() == 0 {
        0u64
    } else if s.len() == 1 {
        s[0]
    } else {
        let m = min_points(s.drop_last());
        if s.last() < m {
            s.last()
        } else {
            m
        }
    }
}

/// The value a round of dice reduces to under a post processor: sum (with
/// wrapping), floored average, max, or min.
pub open spec fn reduce_points(s: Seq<u64>, pp: PostProcessor) -> u64 {
    match pp {
        PostProcessor::Sum => sum_points(s),
        PostProcessor::Avg => if s.len() == 0 {
            0u64
        } else {
            (sum_points(s) as int / s.len() as int) as u64
        },
        PostProcessor::Max => max_points(s),
        PostProcessor::Min => min_points(s),
    }
}

/// A dice value, reinterpreted as a signed 64-bit number.
pub open spec fn dice_value_as_i64(v: u64) -> i64 {
    vstd::wrapping::i64_specs::wrapping_add_unsigned(0i64, v)
}

/// Combine two rolled values with an operator, wrapping on overflow.
pub open spec fn apply_op(op: Operator, l: i64, r: i64) -> i64 {
    match op {
        Operator::Add => vstd::wrapping::i64_specs::wrapping_add(l, r),
        Operator::Minus => vstd::wrapping::i64_specs::wrapping_sub(l, r),
        Operator::Multiply => vstd::wrapping::i64_specs::wrapping_mul(l, r),
    }
}

/// Rolling result of a gurgle [`Dice`](crate::expr::Dice).
#[derive(Debug)]
pub struct DiceRoll {
    points: Vec<u64>,
    pp: PostProcessor,
    value: u64,
}

impl DiceRoll {
    /// The rolled points.
    pub closed spec fn points_spec(&self) -> Seq<u64> {
        self.points@
    }

    /// The post processor of the dice that was rolled.
    pub closed spec fn pp_spec(&self) -> PostProcessor {
        self.pp
    }

    /// The reduced value, computed once when the roll was built.
    pub closed spec fn value_spec(&self) -> u64 {
        self.value
    }

    /// Record a round of rolled points and reduce them eagerly with `pp`.
    pub fn new(points: Vec<u64>, pp: PostProcessor) -> (r: Self)
        requires
            points@.len() >= 1,
        ensures
            r.points_spec() == points@,
            r.pp_spec() == pp,
            r.value_spec() == reduce_points(points@, pp),
    {
        let value = calculate_value(&points, pp);
        Self { points, pp, value }
    }

    /// Get the post processor.
    pub fn post_processor(&self) -> (r: PostProcessor)
        ensures
            r == self.pp_spec(),
    {
        self.pp
    }

    /// Get the rolled points.
    pub fn points(&self) -> (r: &[u64])
        ensures
            r@ == self.points_spec(),
    {
        self.points.as_slice()
    }

    /// Get the point count (the dice's rolling times).
    pub fn len(&self) -> (r: usize)
        ensures
            r == self.points_spec().len(),
    {
        self.points.len()
    }

    /// Get the final value of the round, with the post processor applied.
    /// The value was computed when the roll was built; every read returns
    /// the identical number.
    pub fn value(&self) -> (r: u64)
        ensures
            r == self.value_spec(),
    {
        self.value
    }
}

/// Reduce a round of points with a post processor.
fn calculate_value(points: &Vec<u64>, pp: PostProcessor) -> (r: u64)
    requires
        points@.len() >= 1,
    ensures
        r == reduce_points(points@, pp),
{
    match pp {
        PostProcessor::Sum => sum_exec(points),
        PostProcessor::Avg => {
            let s = sum_exec(points);
            s / (points.len() as u64)
        },
        PostProcessor::Max => {
            let mut m: u64 = points[0];
            let mut i: usize = 1;
            while i < points.len()
                invariant
                    1 <= i <= points@.len(),
                    m == max_points(points@.take(i as int)),
                decreases points@.len() - i,
            {
                proof {
                    assert(points@.take(i + 1).drop_last() =~= points@.take(i as int));
                }
                if points[i] > m {
                    m = points[i];
                }
                i = i + 1;
            }
            proof {
                assert(points@.take(points@.len() as int) =~= points@);
            }
            m
        },
        PostProcessor::Min => {
            let mut m: u64 = points[0];
            let mut i: usize = 1;
            while i < points.len()
                invariant
                    1 <= i <= points@.len(),
                    m == min_points(points@.take(i as int)),
                decreases points@.len() - i,
            {
                proof {
                    assert(points@.take(i + 1).drop_last() =~= points@.take(i as int));
                }
                if points[i] < m {
                    m = points[i];
                }
                i = i + 1;
            }
            proof {
                assert(points@.take(points@.len() as int) =~= points@);
            }
            m
        },
    }
}

/// Sum the points with wrapping addition.
fn sum_exec(points: &Vec<u64>) -> (r: u64)
    ensures
        r == sum_points(points@),
{
    let mut acc: u64 = 0;
    let mut i: usize = 0;
    while i < points.len()
        invariant
            0 <= i <= points@.len(),
            acc == sum_points(points@.take(i as int)),
        decreases points@.len() - i,
    {
        proof {
            assert(points@.take(i + 1).drop_last() =~= points@.take(i as int));
        }
        acc = acc.wrapping_add(points[i]);
        i = i + 1;
    }
    proof {
        assert(points@.take(points@.len() as int) =~= points@);
    }
    acc
}

/// Rolling result of one gurgle expression tree [`Item`].
#[derive(Debug)]
pub enum ItemRoll {
    /// Rolling result of a dice item.
    Dice(DiceRoll),
    /// Number item: the rolling result is the number itself.
    Number(i64),
    /// Rolling result of a wrapped sub-expression.
    Parentheses(Box<RollTreeNode>),
}

/// The value of a rolled item.
pub open spec fn item_roll_value(ir: ItemRoll) -> i64
    decreases ir,
{
    match ir {
        ItemRoll::Dice(d) => dice_value_as_i64(d.value_spec()),
        ItemRoll::Number(x) => x,
        ItemRoll::Parentheses(e) => roll_node_value(*e),
    }
}

/// The value of a rolled tree node: for an internal node, the node's
/// operator applied to the values of its children.
pub open spec fn roll_node_value(n: RollTreeNode) -> i64
    decreases n,
{
    match n {
        BinaryTreeNode::Leaf(ir) => item_roll_value(ir),
        BinaryTreeNode::Tree(t) => apply_op(
            t.mid,
            roll_node_value(*t.left),
            roll_node_value(*t.right),
        ),
    }
}

impl ItemRoll {
    /// Get the rolling result value.
    pub fn value(&self) -> (r: i64)
        ensures
            r == item_roll_value(*self),
        decreases *self,
    {
        match self {
            ItemRoll::Dice(dice) => (0i64).wrapping_add_unsigned(dice.value()),
            ItemRoll::Number(x) => *x,
            ItemRoll::Parentheses(e) => e.value(),
        }
    }
}

/// Rolling result tree.
pub type RollTree = BinaryTree<ItemRoll, Operator>;

/// Rolling result tree node: a leaf or a subtree.
pub type RollTreeNode = BinaryTreeNode<ItemRoll, Operator>;

/// Combine two rolled values with an operator, wrapping on overflow.
fn apply_op_exec(op: Operator, l: i64, r: i64) -> (v: i64)
    ensures
        v == apply_op(op, l, r),
{
    match op {
        Operator::Add => l.wrapping_add(r),
        Operator::Minus => l.wrapping_sub(r),
        Operator::Multiply => l.wrapping_mul(r),
    }
}

impl RollTree {
    /// Get the combined value of this subtree: the operator applied to the
    /// values of its children, with the documented wrapping arithmetic.
    /// The value is a pure function of the children, so repeated reads of
    /// the same tree return the identical number.
    pub fn value(&self) -> (r: i64)
        ensures
            r == apply_op(self.mid, roll_node_value(*self.left), roll_node_value(*self.right)),
        decreases *self,
    {
        apply_op_exec(self.mid, self.left.value(), self.right.value())
    }
}

impl RollTreeNode {
    /// Get the rolling result value.
    pub fn value(&self) -> (r: i64)
        ensures
            r == roll_node_value(*self),
        decreases *self,
    {
        match self {
            BinaryTreeNode::Leaf(leaf) => leaf.value(),
            BinaryTreeNode::Tree(tree) => tree.value(),
        }
    }
}

/// How a rolled item corresponds to the item it was rolled from: numbers
/// keep their value; a dice's points have the dice's count and stay within
/// its sides, with the reduced value stored; wrapped sub-expressions
/// correspond recursively.
pub open spec fn rolled_item_matches(item: Item, r: ItemRoll) -> bool
    decreases item,
{
    match item {
        Item::Number(x) => r matches ItemRoll::Number(y) && x == y,
        Item::Dice(d) => r matches ItemRoll::Dice(dr) && dr.pp_spec() == d.pp
            && dr.points_spec().len() == d.times && (forall|i: int|
            0 <= i < dr.points_spec().len() ==> 1 <= #[trigger] dr.points_spec()[i] <= d.sided)
            && dr.value_spec() == reduce_points(dr.points_spec(), d.pp),
        Item::Parentheses(e) => r matches ItemRoll::Parentheses(re) && rolled_node_matches(
            *e,
            *re,
        ),
    }
}

/// How a rolled node corresponds to the expression node it was rolled from.
pub open spec fn rolled_node_matches(n: AstTreeNode, r: RollTreeNode) -> bool
    decreases n,
{
    match n {
        BinaryTreeNode::Leaf(item) => r matches BinaryTreeNode::Leaf(ri) && rolled_item_matches(
            item,
            ri,
        ),
        BinaryTreeNode::Tree(t) => r matches BinaryTreeNode::Tree(rt) && rolled_tree_matches(
            t,
            rt,
        ),
    }
}

/// How a rolled tree corresponds to the expression tree it was rolled from:
/// both children correspond and the operator is kept.
pub open spec fn rolled_tree_matches(t: AstTree, rt: RollTree) -> bool
    decreases t,
{
    rolled_node_matches(*t.left, *rt.left) && rolled_node_matches(*t.right, *rt.right)
        && rt.mid == t.mid
}

/// Rolling result of a whole gurgle command.
#[derive(Debug)]
pub struct GurgleRoll<'g> {
    result: RollTreeNode,
    checker: Option<&'g Checker>,
    value: i64,
}

impl<'g> GurgleRoll<'g> {
    /// The rolled result tree.
    pub closed spec fn expr_spec(&self) -> RollTreeNode {
        self.result
    }

    /// The checker this roll is judged by, if any.
    pub closed spec fn checker_spec(&self) -> Option<Checker> {
        match self.checker {
            Some(c) => Some(*c),
            None => None,
        }
    }

    /// The result value, computed once when the roll was built.
    pub closed spec fn value_spec(&self) -> i64 {
        self.value
    }

    /// Wrap a rolled tree and its checker; the result value is computed
    /// here, eagerly.
    pub(crate) fn new(result: RollTreeNode, checker: Option<&'g Checker>) -> (r: Self)
        ensures
            r.expr_spec() == result,
            r.value_spec() == roll_node_value(result),
            r.checker_spec() == (match checker {
                Some(c) => Some(*c),
                None => None::<Checker>,
            }),
    {
        let value = result.value();
        Self { result, checker, value }
    }

    /// Get the rolled result tree.
    pub fn expr(&self) -> (r: &RollTreeNode)
        ensures
            *r == self.expr_spec(),
    {
        &self.result
    }

    /// Get the checker.
    pub fn checker(&self) -> (r: Option<&'g Checker>)
        ensures
            match r {
                Some(c) => self.checker_spec() == Some(*c),
                None => self.checker_spec() is None,
            },
    {
        self.checker
    }

    /// Get the rolling result value. The value was computed when the roll
    /// was built: every read returns the identical number.
    pub fn value(&self) -> (r: i64)
        ensures
            r == self.value_spec(),
    {
        self.value
    }

    /// Check if this rolling result is a success: `None` when the command
    /// has no checker, otherwise the checker applied to the result value.
    pub fn success(&self) -> (r: Option<bool>)
        ensures
            match self.checker_spec() {
                Some(c) => r == Some(spec_check(c.compare, c.target, self.value_spec())),
                None => r is None,
            },
    {
        match self.checker {
            Some(c) => Some(c.check(self.value)),
            None => None,
        }
    }
}

proof fn lemma_sum_int_bounds(s: Seq<u64>, sided: u64)
    requires
        forall|i: int| 0 <= i < s.len() ==> 1 <= #[trigger] s[i] <= sided,
    ensures
        s.len() <= sum_int(s) <= s.len() * sided,
    decreases s.len(),
{
    if s.len() > 0 {
        lemma_sum_int_bounds(s.drop_last(), sided);
        assert(1 <= s.last() <= sided);
        assert((s.len() - 1) * sided + sided == s.len() * sided) by (nonlinear_arith);
    }
}

proof fn lemma_sum_points_no_wrap(s: Seq<u64>, sided: u64)
    requires
        forall|i: int| 0 <= i < s.len() ==> 1 <= #[trigger] s[i] <= sided,
        s.len() * sided <= u64::MAX,
    ensures
        sum_points(s) == sum_int(s),
    decreases s.len(),
{
    if s.len() > 0 {
        assert(((s.len() - 1) as int) * sided <= (s.len() as int) * sided) by (nonlinear_arith);
        lemma_sum_points_no_wrap(s.drop_last(), sided);
        lemma_sum_int_bounds(s.drop_last(), sided);
        assert((s.len() - 1) * sided + sided == s.len() * sided) by (nonlinear_arith);
    }
}

proof fn lemma_max_points_bounds(s: Seq<u64>, sided: u64)
    requires
        s.len() >= 1,
        forall|i: int| 0 <= i < s.len() ==> 1 <= #[trigger] s[i] <= sided,
    ensures
        1 <= max_points(s) <= sided,
    decreases s.len(),
{
    if s.len() > 1 {
        lemma_max_points_bounds(s.drop_last(), sided);
    }
}

proof fn lemma_min_points_bounds(s: Seq<u64>, sided: u64)
    requires
        s.len() >= 1,
        forall|i: int| 0 <= i < s.len() ==> 1 <= #[trigger] s[i] <= sided,
    ensures
        1 <= min_points(s) <= sided,
    decreases s.len(),
{
    if s.len() > 1 {
        lemma_min_points_bounds(s.drop_last(), sided);
    }
}

/// Bounds of a reduced round of dice. For at least one point, each in
/// `[1, sided]`, whose exact sum fits in a `u64` (`len * sided <= u64::MAX`):
/// the `Sum` reduction equals the exact sum and lies in `[len, len * sided]`;
/// the `Max` and `Min` reductions lie in `[1, sided]`; the `Avg` reduction
/// equals the floored mean `sum / len` and lies in `[1, sided]`.
pub proof fn lemma_reduce_points_bounds(points: Seq<u64>, sided: u64, pp: PostProcessor)
    requires
        points.len() >= 1,
        forall|i: int| 0 <= i < points.len() ==> 1 <= #[trigger] points[i] <= sided,
        points.len() * sided <= u64::MAX,
    ensures
        match pp {
            PostProcessor::Sum => reduce_points(points, pp) == sum_int(points) && points.len()
                <= reduce_points(points, pp) <= points.len() * sided,
            PostProcessor::Avg => reduce_points(points, pp) == sum_int(points) / (
            points.len() as int) && 1 <= reduce_points(points, pp) <= sided,
            PostProcessor::Max => 1 <= reduce_points(points, pp) <= sided,
            PostProcessor::Min => 1 <= reduce_points(points, pp) <= sided,
        },
{
    lemma_sum_int_bounds(points, sided);
    lemma_sum_points_no_wrap(points, sided);
    match pp {
        PostProcessor::Sum => {
        },
        PostProcessor::Avg => {
            let n = points.len() as int;
            let sm = sum_int(points);
            lemma_div_is_ordered(n, sm, n);
            lemma_div_by_self(n);
            lemma_multiply_divide_le(sm, n, sided as int);
        },
        PostProcessor::Max => {
            lemma_max_points_bounds(points, sided);
        },
        PostProcessor::Min => {
            lemma_min_points_bounds(points, sided);
        },
    }
}

/// The constant value of an item, when every leaf below it is a plain
/// number; `None` as soon as a dice occurs.
pub open spec fn item_const_value(item: Item) -> Option<i64>
    decreases item,
{
    match item {
        Item::Number(x) => Some(x),
        Item::Dice(_) => None,
        Item::Parentheses(e) => node_const_value(*e),
    }
}

/// The constant value of an expression node, when every leaf below it is a
/// plain number: direct arithmetic over the literals, with the same
/// wrapping operators evaluation uses.
pub open spec fn node_const_value(n: AstTreeNode) -> Option<i64>
    decreases n,
{
    match n {
        BinaryTreeNode::Leaf(item) => item_const_value(item),
        BinaryTreeNode::Tree(t) => match (node_const_value(*t.left), node_const_value(*t.right)) {
            (Some(l), Some(r)) => Some(apply_op(t.mid, l, r)),
            _ => None,
        },
    }
}

/// Rolling a constant expression is deterministic: every roll of an
/// expression whose leaves are all numbers carries the direct arithmetic
/// value of those literals.
pub proof fn lemma_const_eval(n: AstTreeNode, r: RollTreeNode)
    requires
        rolled_node_matches(n, r),
        node_const_value(n) is Some,
    ensures
        node_const_value(n) == Some(roll_node_value(r)),
    decreases n,
{
    match n {
        BinaryTreeNode::Leaf(item) => {
            assert(node_const_value(n) == item_const_value(item));
            let ri = r->Leaf_0;
            assert(rolled_item_matches(item, ri));
            assert(roll_node_value(r) == item_roll_value(ri));
            match item {
                Item::Number(_) => {
                },
                Item::Dice(_) => {
                },
                Item::Parentheses(e) => {
                    let re = ri->Parentheses_0;
                    assert(rolled_node_matches(*e, *re));
                    lemma_const_eval(*e, *re);
                },
            }
        },
        BinaryTreeNode::Tree(t) => {
            let rt = r->Tree_0;
            assert(rolled_tree_matches(t, rt));
            lemma_const_eval(*t.left, *rt.left);
            lemma_const_eval(*t.right, *rt.right);
        },
    }
}

} // verus!
