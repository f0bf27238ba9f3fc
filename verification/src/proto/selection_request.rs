use vstd::prelude::*;
use crate::proto::Selection;

verus! {

#[derive(Clone, Debug, PartialEq, Default)]
pub struct GetSelectionRequest {
    pub session_id: Option<String>,
}

#[derive(Clone, Debug, PartialEq, Default)]
pub struct SetSelectionRequest {
    pub session_id: Option<String>,
    pub selection: Option<Selection>,
}

#[derive(Clone, Debug, PartialEq)]
pub enum Request {
    GetSelectionRequest(GetSelectionRequest),
    SetSelectionRequest(SetSelectionRequest),
}

} // verus!
