use vstd::prelude::*;

verus! {

/// A function that ran, and the JSON text of what it returned.
#[derive(Clone, Debug, PartialEq, Default)]
pub struct Success {
    pub json_result: Option<String>,
}

/// A function that could not run or failed, with the reason.
#[derive(Clone, Debug, PartialEq, Default)]
pub struct Error {
    pub status: Option<i32>,
    pub error_reason: Option<String>,
}

/// How an invocation ended.
#[derive(Clone, Debug, PartialEq)]
pub enum Disposition {
    Error(Error),
    Success(Success),
}

} // verus!
