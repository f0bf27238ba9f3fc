use vstd::prelude::*;

verus! {

#[derive(Clone, Debug, PartialEq, Default)]
pub struct ListConnections {}

#[derive(Clone, Debug, PartialEq, Default)]
pub struct SendCommand {
    pub connection_id: Option<String>,
    pub command: Option<String>,
}

#[derive(Clone, Debug, PartialEq)]
pub enum Payload {
    ListConnections(ListConnections),
    SendCommand(SendCommand),
}

} // verus!
