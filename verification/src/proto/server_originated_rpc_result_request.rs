use vstd::prelude::*;

verus! {

/// The outcome of a server-originated call, as JSON.
#[derive(Clone, Debug, PartialEq)]
pub enum RpcResult {
    JsonException(String),
    JsonValue(String),
}

} // verus!
