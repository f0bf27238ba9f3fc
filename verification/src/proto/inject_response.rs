use vstd::prelude::*;

verus! {

/// Per-session outcome of an injection.
#[derive(Clone, Copy, Debug, PartialEq, Eq)]
pub enum Status {
    Success,
    SessionNotFound,
}

impl Status {
    pub open spec fn spec_code(self) -> i32 {
        match self {
            Status::Success => 0,
            Status::SessionNotFound => 1,
        }
    }

    #[verifier::when_used_as_spec(spec_code)]
    pub fn code(self) -> (c: i32)
        ensures
            c == self.spec_code(),
    {
        match self {
            Status::Success => 0,
            Status::SessionNotFound => 1,
        }
    }
}

} // verus!
