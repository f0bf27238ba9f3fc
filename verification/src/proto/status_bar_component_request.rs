use vstd::prelude::*;
use crate::proto::Size;

verus! {

#[derive(Clone, Debug, PartialEq, Default)]
pub struct OpenPopover {
    pub session_id: Option<String>,
    pub html: Option<String>,
    pub size: Option<Size>,
}

#[derive(Clone, Debug, PartialEq)]
pub enum Request {
    OpenPopover(OpenPopover),
}

} // verus!
