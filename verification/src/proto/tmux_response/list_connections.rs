use vstd::prelude::*;

verus! {

/// One tmux integration and the session that runs it.
#[derive(Clone, Debug, PartialEq, Default)]
pub struct Connection {
    pub connection_id: Option<String>,
    pub owning_session_id: Option<String>,
}

} // verus!
