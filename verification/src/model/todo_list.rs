use vstd::prelude::*;

verus! {

/// A named list that may not have been stored yet.
#[derive(Debug)]
pub struct TodoList {
    id: Option<u32>,
    name: String,
}

impl TodoList {
    pub closed spec fn spec_id(&self) -> Option<u32> {
        self.id
    }

    pub closed spec fn spec_name(&self) -> Seq<char> {
        self.name@
    }

    pub fn new(id: Option<u32>, name: String) -> (list: Self)
        ensures
            list.spec_id() == id,
            list.spec_name() == name@,
    {
        TodoList { id, name }
    }

    /// The id storage gave the list, if it has one.
    pub fn id(&self) -> (id: Option<u32>)
        ensures
            id == self.spec_id(),
    {
        self.id
    }

    pub fn name(&self) -> (name: &String)
        ensures
            name@ == self.spec_name(),
    {
        &self.name
    }
}

} // verus!
