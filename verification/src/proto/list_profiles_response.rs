use vstd::prelude::*;
use crate::proto::ProfileProperty;

verus! {

#[derive(Clone, Debug, PartialEq, Default)]
pub struct Profile {
    pub properties: Vec<ProfileProperty>,
}

} // verus!
