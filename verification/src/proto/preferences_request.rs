use vstd::prelude::*;

pub mod request;

verus! {

/// One preference query or update.
#[derive(Clone, Debug, PartialEq, Default)]
pub struct Request {
    pub request: Option<request::Request>,
}

} // verus!
