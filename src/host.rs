use vstd::prelude::*;

verus! {

/// Where a command's responses are delivered.
#[derive(Debug, Clone, PartialEq, Eq)]
pub struct Channel {
    pub id: String,
    pub name: String,
}

/// The entity that asked for a command.
#[derive(Debug, Clone, PartialEq, Eq)]
pub struct Invoker {
    pub id: String,
    pub name: String,
}

} // verus!
