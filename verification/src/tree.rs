//! A small owning binary tree, shared by the expression tree and the
//! rolling-result tree.

use vstd::prelude::*;

verus! {

/// Common binary tree structure.
///
/// `T` is the leaf payload and `Mid` the payload of an internal node.
#[derive(Debug, PartialEq, Eq, Hash)]
pub struct BinaryTree<T, Mid> {
    /// Left subtree.
    pub left: Box<BinaryTreeNode<T, Mid>>,
    /// Middle value (the internal node's payload).
    pub mid: Mid,
    /// Right subtree.
    pub right: Box<BinaryTreeNode<T, Mid>>,
}

/// Node in the binary tree.
#[derive(Debug, PartialEq, Eq, Hash)]
pub enum BinaryTreeNode<T, Mid> {
    /// A leaf node.
    Leaf(T),
    /// A (sub) tree.
    Tree(BinaryTree<T, Mid>),
}

impl<T: Clone, Mid: Clone> Clone for BinaryTree<T, Mid> {
    fn clone(&self) -> Self
        decreases *self,
    {
        BinaryTree {
            left: Box::new((*self.left).clone()),
            mid: self.mid.clone(),
            right: Box::new((*self.right).clone()),
        }
    }
}

impl<T: Clone, Mid: Clone> Clone for BinaryTreeNode<T, Mid> {
    fn clone(&self) -> Self
        decreases *self,
    {
        match self {
            BinaryTreeNode::Leaf(t) => BinaryTreeNode::Leaf(t.clone()),
            BinaryTreeNode::Tree(t) => BinaryTreeNode::Tree(t.clone()),
        }
    }
}

impl<T, Mid> BinaryTree<T, Mid> {
    /// Create a new tree from left/right subtrees and a middle (root) value.
    pub fn new(left: BinaryTreeNode<T, Mid>, right: BinaryTreeNode<T, Mid>, mid: Mid) -> (r:
        Self)
        ensures
            *r.left == left,
            *r.right == right,
            r.mid == mid,
    {
        Self { left: Box::new(left), mid, right: Box::new(right) }
    }
}

impl<T, Mid> BinaryTreeNode<T, Mid> {
    /// Check if this node is a leaf node.
    pub fn is_leaf(&self) -> (r: bool)
        ensures
            r == (self is Leaf),
    {
        matches!(self, BinaryTreeNode::Leaf(_))
    }

    /// Check if this node is a tree.
    pub fn is_tree(&self) -> (r: bool)
        ensures
            r == (self is Tree),
    {
        matches!(self, BinaryTreeNode::Tree(_))
    }

    /// Try to treat this node as a leaf node and get the leaf value.
    pub fn as_leaf(&self) -> (r: Option<&T>)
        ensures
            match r {
                Some(t) => self matches BinaryTreeNode::Leaf(l) && t == l,
                None => self is Tree,
            },
    {
        match self {
            BinaryTreeNode::Leaf(t) => Some(t),
            BinaryTreeNode::Tree(_) => None,
        }
    }

    /// Try to treat this node as a subtree.
    pub fn as_tree(&self) -> (r: Option<&BinaryTree<T, Mid>>)
        ensures
            match r {
                Some(t) => self matches BinaryTreeNode::Tree(s) && t == s,
                None => self is Leaf,
            },
    {
        match self {
            BinaryTreeNode::Leaf(_) => None,
            BinaryTreeNode::Tree(t) => Some(t),
        }
    }
}

} // verus!
