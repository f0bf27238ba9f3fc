use vstd::prelude::*;

verus! {

#[derive(Clone, Debug, PartialEq, Default)]
pub struct GetPreference {
    pub key: Option<String>,
}

#[derive(Clone, Debug, PartialEq, Default)]
pub struct SetPreference {
    pub key: Option<String>,
    pub json_value: Option<String>,
}

#[derive(Clone, Debug, PartialEq)]
pub enum Request {
    GetPreferenceRequest(GetPreference),
    SetPreferenceRequest(SetPreference),
}

} // verus!
