use vstd::prelude::*;

verus! {

/// Per-item outcome of a close request.
#[derive(Clone, Copy, Debug, PartialEq, Eq)]
pub enum Status {
    Success,
    NotFound,
    UserDeclined,
}

impl Status {
    pub open spec fn spec_code(self) -> i32 {
        match self {
            Status::Success => 0,
            Status::NotFound => 1,
            Status::UserDeclined => 2,
        }
    }

    #[verifier::when_used_as_spec(spec_code)]
    pub fn code(self) -> (c: i32)
        ensures
            c == self.spec_code(),
    {
        match self {
            Status::Success => 0,
            Status::NotFound => 1,
            Status::UserDeclined => 2,
        }
    }
}

} // verus!
