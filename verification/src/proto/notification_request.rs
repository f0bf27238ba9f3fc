use vstd::prelude::*;

verus! {

#[derive(Clone, Debug, PartialEq, Default)]
pub struct VariableMonitorRequest {
    pub name: Option<String>,
    pub scope: Option<i32>,
    pub identifier: Option<String>,
}

#[derive(Clone, Debug, PartialEq, Default)]
pub struct PromptMonitorRequest {
    pub modes: Vec<i32>,
}

/// Extra arguments of a subscription, for the notification types that take
/// them.
#[derive(Clone, Debug, PartialEq)]
pub enum Arguments {
    VariableMonitorRequest(VariableMonitorRequest),
    PromptMonitorRequest(PromptMonitorRequest),
}

} // verus!
