use vstd::prelude::*;

pub mod split_tree_link;

verus! {

/// One child of a split-tree node.
#[derive(Debug, PartialEq, Default)]
pub struct SplitTreeLink {
    pub child: Option<split_tree_link::Child>,
}

impl Clone for SplitTreeLink {
    fn clone(&self) -> (copy: Self)
        ensures
            match (copy.child, self.child) {
                (None, None) => true,
                (Some(a), Some(b)) => split_tree_link::same_child(a, b),
                _ => false,
            },
    {
        let child = match &self.child {
            None => None,
            Some(c) => Some(c.clone()),
        };
        SplitTreeLink { child }
    }
}

} // verus!
