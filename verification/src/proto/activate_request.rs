use vstd::prelude::*;

verus! {

/// What to bring to the front.
#[derive(Clone, Debug, PartialEq)]
pub enum Identifier {
    TabId(String),
    SessionId(String),
    WindowId(String),
}

/// Activation of the application itself.
#[derive(Clone, Copy, Debug, PartialEq, Default)]
pub struct App {
    pub raise_all_windows: Option<bool>,
    pub ignoring_other_apps: Option<bool>,
}

} // verus!
