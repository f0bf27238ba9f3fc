use vstd::prelude::*;

verus! {

#[derive(Clone, Debug, PartialEq, Default)]
pub struct Window {
    pub window_status: Option<i32>,
    pub window_id: Option<String>,
}

/// What gained or lost focus.
#[derive(Clone, Debug, PartialEq)]
pub enum Event {
    ApplicationActive(bool),
    Window(Window),
    SelectedTab(String),
    Session(String),
}

} // verus!
