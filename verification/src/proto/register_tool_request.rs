use vstd::prelude::*;

verus! {

#[derive(Clone, Copy, Debug, PartialEq, Eq)]
pub enum ToolType {
    WebViewTool,
}

impl ToolType {
    pub open spec fn spec_code(self) -> i32 {
        match self {
            ToolType::WebViewTool => 1,
        }
    }

    #[verifier::when_used_as_spec(spec_code)]
    pub fn code(self) -> (c: i32)
        ensures
            c == self.spec_code(),
    {
        match self {
            ToolType::WebViewTool => 1,
        }
    }
}

} // verus!
