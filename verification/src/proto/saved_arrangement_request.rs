use vstd::prelude::*;

verus! {

#[derive(Clone, Copy, Debug, PartialEq, Eq)]
pub enum Action {
    Restore,
    Save,
    List,
}

impl Action {
    pub open spec fn spec_code(self) -> i32 {
        match self {
            Action::Restore => 0,
            Action::Save => 1,
            Action::List => 2,
        }
    }

    #[verifier::when_used_as_spec(spec_code)]
    pub fn code(self) -> (c: i32)
        ensures
            c == self.spec_code(),
    {
        match self {
            Action::Restore => 0,
            Action::Save => 1,
            Action::List => 2,
        }
    }
}

} // verus!
