use vstd::prelude::*;

verus! {

#[derive(Clone, Debug, PartialEq, Default)]
pub struct GuidList {
    pub guids: Vec<String>,
}

/// Whose profile to change: a session's, or the profiles with given GUIDs.
#[derive(Clone, Debug, PartialEq)]
pub enum Target {
    Session(String),
    GuidList(GuidList),
}

#[derive(Clone, Debug, PartialEq, Default)]
pub struct Assignment {
    pub key: Option<String>,
    pub json_value: Option<String>,
}

} // verus!
