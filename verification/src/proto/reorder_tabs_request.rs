use vstd::prelude::*;

verus! {

/// The tabs that a window is to hold, in order.
#[derive(Clone, Debug, PartialEq, Default)]
pub struct Assignment {
    pub window_id: Option<String>,
    pub tab_ids: Vec<String>,
}

} // verus!
