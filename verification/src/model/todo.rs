use vstd::prelude::*;
use vstd::string::*;
use crate::error::WebError;
use crate::forms::todo::{CreateTodo, UpdateTodo};
use crate::patch::{apply_all, apply_assignments, Assignment, assignment_views, patch_assignments};
use crate::storage::query::{Query, QueryView};
use crate::storage::reply::{Reply, ReplyView, Step};
use crate::web_app::client::Client;

verus! {

/// A content-plus-completion item. It belongs to exactly one work-list and
/// is owned by whoever owns that list.
#[derive(Debug)]
pub struct Todo {
    pub id: i64,
    pub content: String,
    pub completed: bool,
    pub work_list_id: i64,
}

/// A todo as plain values.
pub struct TodoView {
    pub id: i64,
    pub content: Seq<char>,
    pub completed: bool,
    pub work_list_id: i64,
}

impl View for Todo {
    type V = TodoView;

    open spec fn view(&self) -> TodoView {
        TodoView {
            id: self.id,
            content: self.content@,
            completed: self.completed,
            work_list_id: self.work_list_id,
        }
    }
}

/// The plain values of a run of todos, in the same order.
pub open spec fn todo_views(todos: Seq<Todo>) -> Seq<TodoView> {
    todos.map_values(|todo: Todo| todo@)
}

impl Todo {
    pub fn new(id: i64, content: String, completed: bool, work_list_id: i64) -> (todo: Self)
        ensures
            todo@ == (TodoView { id, content: content@, completed, work_list_id }),
    {
        Self { id, content, completed, work_list_id }
    }

    /// A copy with the same plain values.
    pub fn duplicate(&self) -> (copy: Self)
        ensures
            copy@ == self@,
    {
        Self {
            id: self.id,
            content: self.content.clone(),
            completed: self.completed,
            work_list_id: self.work_list_id,
        }
    }
}

/// A lookup that waits for storage to return the row.
#[derive(Debug)]
pub struct PendingFind {}

/// A creation that waits for storage to insert the row.
#[derive(Debug)]
pub struct PendingCreate {
    pub content: String,
    pub work_list_id: i64,
}

/// Where an update stands while it waits for storage.
#[derive(Debug)]
pub enum PendingUpdate {
    /// Storage was asked whether the tenant owns the todo's work-list.
    Authorize { id: i64, work_list_id: i64, assignments: Vec<Assignment> },
    /// Storage was asked to write the assignments.
    Persist { assignments: Vec<Assignment> },
}

/// Where a deletion stands while it waits for storage.
#[derive(Debug)]
pub enum PendingDelete {
    /// Storage was asked whether the tenant owns the todo's work-list.
    Authorize { id: i64, work_list_id: i64 },
    /// Storage was asked to remove the row.
    Remove,
}

/// Copies a run of assignments.
pub fn duplicate_assignments(assignments: &Vec<Assignment>) -> (copy: Vec<Assignment>)
    ensures
        assignment_views(copy@) == assignment_views(assignments@),
{
    let mut copy: Vec<Assignment> = Vec::new();
    let mut done: usize = 0;
    while done < assignments.len()
        invariant
            done <= assignments.len(),
            copy.len() == done,
            forall|i: int| 0 <= i < done ==> (#[trigger] copy@[i])@ == assignments@[i]@,
        decreases assignments.len() - done,
    {
        copy.push(assignments[done].duplicate());
        done = done + 1;
    }
    assert(assignment_views(copy@) =~= assignment_views(assignments@));
    copy
}

impl Todo {
    /// The question every change to a todo starts with: does the tenant own
    /// the work-list the todo belongs to?
    pub fn authorize(work_list_id: i64, client: &Client) -> (query: Query)
        ensures
            query@ == (QueryView::OwnsWorkList { work_list_id, owner: client@.id }),
    {
        Query::OwnsWorkList { work_list_id, owner: client.id() }
    }

    /// Starts to look a todo up by its id and the owner of its work-list.
    pub fn begin_find(id: i64, client: &Client) -> (step: Step<PendingFind, Todo>)
        ensures
            step matches Step::Ask(query, pending) && query@ == (QueryView::TodoOf {
                id,
                owner: client@.id,
            }),
    {
        Step::Ask(Query::TodoOf { id, owner: client.id() }, PendingFind {})
    }

    /// Starts to create a todo under a work-list. Storage inserts the row
    /// only if the tenant owns the work-list, in one statement, so that no
    /// change of ownership can slip in between the check and the insert.
    pub fn begin_create(form: CreateTodo, client: &Client) -> (step: Step<PendingCreate, Todo>)
        ensures
            step matches Step::Ask(query, pending) && query@ == (QueryView::InsertTodo {
                content: form.content@,
                work_list_id: form.work_list_id,
                owner: client@.id,
            }) && pending.content@ == form.content@ && pending.work_list_id == form.work_list_id,
    {
        Step::Ask(
            Query::InsertTodo {
                content: form.content.clone(),
                work_list_id: form.work_list_id,
                owner: client.id(),
            },
            PendingCreate { content: form.content, work_list_id: form.work_list_id },
        )
    }

    /// Starts a sparse update of the todo: ownership of its work-list is
    /// checked anew before anything is written.
    pub fn begin_update(&self, form: UpdateTodo, client: &Client) -> (step: Step<PendingUpdate, ()>)
        ensures
            step matches Step::Ask(query, pending) && query@ == (QueryView::OwnsWorkList {
                work_list_id: self.work_list_id,
                owner: client@.id,
            }) && (pending matches PendingUpdate::Authorize { id, work_list_id, assignments }
                && id == self.id && work_list_id == self.work_list_id && assignment_views(
                assignments@,
            ) == patch_assignments(form@)),
    {
        Step::Ask(
            Self::authorize(self.work_list_id, client),
            PendingUpdate::Authorize {
                id: self.id,
                work_list_id: self.work_list_id,
                assignments: form.assignments(),
            },
        )
    }

    /// Starts to delete the todo: ownership of its work-list is checked
    /// anew before anything is removed.
    pub fn begin_delete(&self, client: &Client) -> (step: Step<PendingDelete, ()>)
        ensures
            step matches Step::Ask(query, pending) && query@ == (QueryView::OwnsWorkList {
                work_list_id: self.work_list_id,
                owner: client@.id,
            }) && pending == (PendingDelete::Authorize {
                id: self.id,
                work_list_id: self.work_list_id,
            }),
    {
        Step::Ask(
            Self::authorize(self.work_list_id, client),
            PendingDelete::Authorize { id: self.id, work_list_id: self.work_list_id },
        )
    }
}

impl PendingFind {
    /// Takes the answer of storage. No row means not found, whether the id
    /// is unknown or the todo's work-list is another tenant's.
    pub fn resume(self, reply: Reply) -> (step: Step<PendingFind, Todo>)
        ensures
            match reply@ {
                ReplyView::Todo(Some(row)) => step matches Step::Done(Ok(todo)) && todo@ == row,
                ReplyView::Todo(None) => step matches Step::Done(Err(error)) && error is NotFound,
                _ => step matches Step::Done(Err(error)) && error is StorageFailure,
            },
    {
        match reply {
            Reply::Todo(Some(todo)) => Step::Done(Ok(todo)),
            Reply::Todo(None) => Step::Done(Err(WebError::NotFound)),
            _ => Step::Done(Err(WebError::StorageFailure)),
        }
    }
}

impl PendingCreate {
    /// Takes the answer of storage. The new todo has the id storage gave it
    /// and is not completed. If storage inserted nothing, the work-list is
    /// not the tenant's, which is reported as not found.
    pub fn resume(self, reply: Reply) -> (step: Step<PendingCreate, Todo>)
        ensures
            match reply@ {
                ReplyView::Inserted(Some(id)) => step matches Step::Done(Ok(todo)) && todo@ == (
                TodoView {
                    id,
                    content: self.content@,
                    completed: false,
                    work_list_id: self.work_list_id,
                }),
                ReplyView::Inserted(None) => step matches Step::Done(Err(error))
                    && error is NotFound,
                _ => step matches Step::Done(Err(error)) && error is StorageFailure,
            },
    {
        match reply {
            Reply::Inserted(Some(id)) => Step::Done(
                Ok(Todo::new(id, self.content, false, self.work_list_id)),
            ),
            Reply::Inserted(None) => Step::Done(Err(WebError::NotFound)),
            _ => Step::Done(Err(WebError::StorageFailure)),
        }
    }
}

impl PendingUpdate {
    /// Takes the answer of storage.
    ///
    /// When the tenant does not own the work-list the update ends as not
    /// found. When it does and the update assigns nothing, the update ends
    /// in success without a statement being written. Otherwise storage is
    /// asked to write the assignments to the todo with the id and work-list
    /// that were checked; once it reports a changed row, the same
    /// assignments are applied to `todo`. In every other case `todo` stays
    /// as it is.
    pub fn resume(self, todo: &mut Todo, reply: Reply) -> (step: Step<PendingUpdate, ()>)
        ensures
            step matches Step::Ask(query, _) ==> query@.well_formed(),
            match (self, reply@) {
                (PendingUpdate::Authorize { id, work_list_id, assignments }, ReplyView::Flag(true)) => {
                    &&& final(todo)@ == old(todo)@
                    &&& if assignments@.len() == 0 {
                        step matches Step::Done(Ok(_))
                    } else {
                        step matches Step::Ask(query, pending) && query@ == (QueryView::UpdateTodo {
                            id,
                            work_list_id,
                            assignments: assignment_views(assignments@),
                        }) && (pending matches PendingUpdate::Persist { assignments: kept }
                            && assignment_views(kept@) == assignment_views(assignments@))
                    }
                },
                (PendingUpdate::Authorize { .. }, ReplyView::Flag(false)) => {
                    &&& final(todo)@ == old(todo)@
                    &&& step matches Step::Done(Err(error)) && error is NotFound
                },
                (PendingUpdate::Persist { assignments }, ReplyView::Affected(count)) => if count
                    > 0 {
                    &&& final(todo)@ == apply_all(assignment_views(assignments@), old(todo)@)
                    &&& step matches Step::Done(Ok(_))
                } else {
                    &&& final(todo)@ == old(todo)@
                    &&& step matches Step::Done(Err(error)) && error is NotFound
                },
                _ => {
                    &&& final(todo)@ == old(todo)@
                    &&& step matches Step::Done(Err(error)) && error is StorageFailure
                },
            },
    {
        match self {
            PendingUpdate::Authorize { id, work_list_id, assignments } => match reply {
                Reply::Flag(true) => {
                    if assignments.len() == 0 {
                        Step::Done(Ok(()))
                    } else {
                        let kept = duplicate_assignments(&assignments);
                        Step::Ask(
                            Query::UpdateTodo { id, work_list_id, assignments },
                            PendingUpdate::Persist { assignments: kept },
                        )
                    }
                },
                Reply::Flag(false) => Step::Done(Err(WebError::NotFound)),
                _ => Step::Done(Err(WebError::StorageFailure)),
            },
            PendingUpdate::Persist { assignments } => match reply {
                Reply::Affected(count) => {
                    if count > 0 {
                        apply_assignments(todo, &assignments);
                        Step::Done(Ok(()))
                    } else {
                        Step::Done(Err(WebError::NotFound))
                    }
                },
                _ => Step::Done(Err(WebError::StorageFailure)),
            },
        }
    }
}

impl PendingDelete {
    /// Takes the answer of storage. When the tenant does not own the
    /// work-list, or storage removed no row, the deletion ends as not
    /// found.
    pub fn resume(self, reply: Reply) -> (step: Step<PendingDelete, ()>)
        ensures
            match (self, reply@) {
                (PendingDelete::Authorize { id, work_list_id }, ReplyView::Flag(true)) => step matches Step::Ask(
                    query,
                    pending,
                ) && query@ == (QueryView::DeleteTodo { id, work_list_id }) && pending
                    == PendingDelete::Remove,
                (PendingDelete::Authorize { .. }, ReplyView::Flag(false)) => step matches Step::Done(
                    Err(error),
                ) && error is NotFound,
                (PendingDelete::Remove, ReplyView::Affected(count)) => if count > 0 {
                    step matches Step::Done(Ok(_))
                } else {
                    step matches Step::Done(Err(error)) && error is NotFound
                },
                _ => step matches Step::Done(Err(error)) && error is StorageFailure,
            },
    {
        match self {
            PendingDelete::Authorize { id, work_list_id } => match reply {
                Reply::Flag(true) => Step::Ask(
                    Query::DeleteTodo { id, work_list_id },
                    PendingDelete::Remove,
                ),
                Reply::Flag(false) => Step::Done(Err(WebError::NotFound)),
                _ => Step::Done(Err(WebError::StorageFailure)),
            },
            PendingDelete::Remove => match reply {
                Reply::Affected(count) => {
                    if count > 0 {
                        Step::Done(Ok(()))
                    } else {
                        Step::Done(Err(WebError::NotFound))
                    }
                },
                _ => Step::Done(Err(WebError::StorageFailure)),
            },
        }
    }
}

} // verus!
