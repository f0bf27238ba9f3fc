use vstd::prelude::*;

verus! {

#[derive(Clone, Debug, PartialEq, Default)]
pub struct UnrecognizedResult {}

#[derive(Clone, Debug, PartialEq, Default)]
pub struct GetPreferenceResult {
    pub json_value: Option<String>,
}

#[derive(Clone, Debug, PartialEq, Default)]
pub struct SetPreferenceResult {
    pub status: Option<i32>,
}

#[derive(Clone, Debug, PartialEq, Default)]
pub struct SetDefaultProfileResult {
    pub status: Option<i32>,
}

#[derive(Clone, Debug, PartialEq, Default)]
pub struct GetDefaultProfileResult {
    pub guid: Option<String>,
}

/// The answer to each kind of preference request.
#[derive(Clone, Debug, PartialEq)]
pub enum Result {
    UnrecognizedResult(UnrecognizedResult),
    GetPreferenceResult(GetPreferenceResult),
    SetPreferenceResult(SetPreferenceResult),
    SetDefaultProfileResult(SetDefaultProfileResult),
    GetDefaultProfileResult(GetDefaultProfileResult),
}

} // verus!
