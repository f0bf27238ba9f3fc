use vstd::prelude::*;
use crate::proto::{Frame, SessionSummary, SplitTreeNode};

verus! {

#[derive(Clone, Debug, PartialEq, Default)]
pub struct Tab {
    pub root: Option<SplitTreeNode>,
    pub tab_id: Option<String>,
    pub tmux_window_id: Option<String>,
    pub tmux_connection_id: Option<String>,
    pub minimized_sessions: Vec<SessionSummary>,
}

#[derive(Clone, Debug, PartialEq, Default)]
pub struct Window {
    pub tabs: Vec<Tab>,
    pub window_id: Option<String>,
    pub frame: Option<Frame>,
    pub number: Option<i32>,
}

} // verus!
