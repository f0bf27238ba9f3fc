use vstd::prelude::*;

verus! {

#[derive(Clone, Debug, PartialEq, Default)]
pub struct CloseTabs {
    pub tab_ids: Vec<String>,
}

#[derive(Clone, Debug, PartialEq, Default)]
pub struct CloseSessions {
    pub session_ids: Vec<String>,
}

#[derive(Clone, Debug, PartialEq, Default)]
pub struct CloseWindows {
    pub window_ids: Vec<String>,
}

/// What to close.
#[derive(Clone, Debug, PartialEq)]
pub enum Target {
    Tabs(CloseTabs),
    Sessions(CloseSessions),
    Windows(CloseWindows),
}

} // verus!
