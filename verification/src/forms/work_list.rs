use vstd::prelude::*;

verus! {

/// The payload that asks for a new work-list.
#[derive(Debug)]
pub struct CreateWorkList {
    pub name: String,
}

/// The payload that renames a work-list.
#[derive(Debug)]
pub struct UpdateWorkList {
    pub name: String,
}

} // verus!
