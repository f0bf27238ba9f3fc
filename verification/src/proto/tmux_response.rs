use vstd::prelude::*;

pub mod list_connections;

verus! {

/// The tmux integrations that are live.
#[derive(Clone, Debug, PartialEq, Default)]
pub struct ListConnections {
    pub connections: Vec<list_connections::Connection>,
}

/// What a tmux command printed.
#[derive(Clone, Debug, PartialEq, Default)]
pub struct SendCommand {
    pub output: Option<String>,
}

#[derive(Clone, Debug, PartialEq, Default)]
pub struct SetWindowVisible {}

/// The tab of a window that tmux created.
#[derive(Clone, Debug, PartialEq, Default)]
pub struct CreateWindow {
    pub tab_id: Option<String>,
}

/// The answer to each kind of tmux request.
#[derive(Clone, Debug, PartialEq)]
pub enum Payload {
    ListConnections(ListConnections),
    SendCommand(SendCommand),
    SetWindowVisible(SetWindowVisible),
    CreateWindow(CreateWindow),
}

} // verus!
