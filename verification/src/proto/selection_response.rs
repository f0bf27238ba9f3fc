use vstd::prelude::*;
use crate::proto::Selection;

verus! {

#[derive(Clone, Debug, PartialEq, Default)]
pub struct GetSelectionResponse {
    pub selection: Option<Selection>,
}

#[derive(Clone, Debug, PartialEq, Default)]
pub struct SetSelectionResponse {}

/// What a selection reply carries: the current selection, or the
/// acknowledgement of a new one.
#[derive(Clone, Debug, PartialEq)]
pub enum Response {
    GetSelectionResponse(GetSelectionResponse),
    SetSelectionResponse(SetSelectionResponse),
}

} // verus!
