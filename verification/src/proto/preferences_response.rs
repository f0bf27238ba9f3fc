use vstd::prelude::*;

pub mod result;

verus! {

/// The outcome of one preference query or update.
#[derive(Clone, Debug, PartialEq, Default)]
pub struct Result {
    pub result: Option<result::Result>,
}

} // verus!
