use vstd::prelude::*;

verus! {

#[derive(Clone, Copy, Debug, PartialEq, Eq)]
pub enum SplitDirection {
    Vertical,
    Horizontal,
}

impl SplitDirection {
    pub open spec fn spec_code(self) -> i32 {
        match self {
            SplitDirection::Vertical => 0,
            SplitDirection::Horizontal => 1,
        }
    }

    #[verifier::when_used_as_spec(spec_code)]
    pub fn code(self) -> (c: i32)
        ensures
            c == self.spec_code(),
    {
        match self {
            SplitDirection::Vertical => 0,
            SplitDirection::Horizontal => 1,
        }
    }
}

} // verus!
