use vstd::prelude::*;
use crate::proto::{SessionSummary, SplitTreeNode};

verus! {

/// A pane (session) or a nested split.
#[derive(Debug, PartialEq)]
pub enum Child {
    Session(SessionSummary),
    Node(SplitTreeNode),
}

/// `a` and `b` are the same child: equal sessions, or the same subtree.
pub open spec fn same_child(a: Child, b: Child) -> bool {
    match (a, b) {
        (Child::Session(x), Child::Session(y)) => x == y,
        (Child::Node(x), Child::Node(y)) => crate::proto::same_tree(x, y),
        _ => false,
    }
}

impl Clone for Child {
    fn clone(&self) -> (copy: Self)
        ensures
            same_child(copy, *self),
    {
        match self {
            Child::Session(s) => Child::Session(s.clone()),
            Child::Node(n) => Child::Node(n.copy_tree()),
        }
    }
}

} // verus!
