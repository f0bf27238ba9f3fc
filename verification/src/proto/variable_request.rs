use vstd::prelude::*;

verus! {

/// Whose variables to read or write.
#[derive(Clone, Debug, PartialEq)]
pub enum Scope {
    SessionId(String),
    TabId(String),
    App(bool),
    WindowId(String),
}

/// One variable assignment: a name and a JSON value.
#[derive(Clone, Debug, PartialEq, Default)]
pub struct SetVariable {
    pub name: Option<String>,
    pub value: Option<String>,
}

} // verus!
