use vstd::prelude::*;

verus! {

#[derive(Clone, Debug, PartialEq)]
pub enum Identifier {
    WindowId(String),
    SessionId(String),
}

} // verus!
