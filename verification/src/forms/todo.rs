use vstd::prelude::*;

verus! {

/// The payload that asks for a new todo under a work-list.
#[derive(Debug)]
pub struct CreateTodo {
    pub content: String,
    pub work_list_id: i64,
}

/// A sparse update of a todo: a field that is absent stays as it is.
#[derive(Debug)]
pub struct UpdateTodo {
    pub content: Option<String>,
    pub completed: Option<bool>,
}

/// What a sparse update holds, as plain values.
pub struct UpdateTodoView {
    pub content: Option<Seq<char>>,
    pub completed: Option<bool>,
}

impl View for UpdateTodo {
    type V = UpdateTodoView;

    open spec fn view(&self) -> UpdateTodoView {
        UpdateTodoView {
            content: match self.content {
                Some(text) => Some(text@),
                None => None,
            },
            completed: self.completed,
        }
    }
}

impl UpdateTodoView {
    /// No field is present, so applying the update changes nothing.
    pub open spec fn is_empty(self) -> bool {
        self.content is None && self.completed is None
    }
}

} // verus!
