use vstd::prelude::*;

verus! {

#[derive(Clone, Debug, PartialEq, Default)]
pub struct ListPresets {}

#[derive(Clone, Debug, PartialEq, Default)]
pub struct GetPreset {
    pub name: Option<String>,
}

#[derive(Clone, Debug, PartialEq)]
pub enum Request {
    ListPresets(ListPresets),
    GetPreset(GetPreset),
}

} // verus!
