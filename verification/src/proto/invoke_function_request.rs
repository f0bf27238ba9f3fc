use vstd::prelude::*;

verus! {

#[derive(Clone, Debug, PartialEq, Default)]
pub struct Tab {
    pub tab_id: Option<String>,
}

#[derive(Clone, Debug, PartialEq, Default)]
pub struct Session {
    pub session_id: Option<String>,
}

#[derive(Clone, Debug, PartialEq, Default)]
pub struct Window {
    pub window_id: Option<String>,
}

#[derive(Clone, Debug, PartialEq, Default)]
pub struct App {}

/// Where the invoked function runs.
#[derive(Clone, Debug, PartialEq)]
pub enum Context {
    Tab(Tab),
    Session(Session),
    Window(Window),
    App(App),
}

} // verus!
