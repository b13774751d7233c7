use vstd::prelude::*;
use crate::model::todo::TodoView;
use crate::patch::apply_all;
use crate::storage::query::QueryView;
use crate::storage::reply::{ReplyView, WorkListRowView};
use crate::web_app::client::ClientView;
use crate::web_app::token::TokenView;

verus! {

/// A stored work-list: the row a tenant sees, and the tenant that owns it.
pub struct WorkListRecord {
    pub id: i64,
    pub name: Seq<char>,
    pub owner: i64,
}

impl WorkListRecord {
    /// The row as a tenant-scoped read returns it.
    pub open spec fn row(self) -> WorkListRowView {
        WorkListRowView { id: self.id, name: self.name }
    }
}

/// What storage holds, as plain data: the four tables in the order of
/// their rows, and the ids that the next inserted rows will get.
pub struct Ledger {
    pub tokens: Seq<TokenView>,
    pub clients: Seq<ClientView>,
    pub work_lists: Seq<WorkListRecord>,
    pub todos: Seq<TodoView>,
    pub next_work_list_id: int,
    pub next_todo_id: int,
}

/// The first of a run of rows, if there is one.
pub open spec fn first_of<T>(rows: Seq<T>) -> Option<T> {
    if rows.len() > 0 {
        Some(rows[0])
    } else {
        None
    }
}

/// A number of rows as a statement reports it.
pub open spec fn affected(rows: nat) -> u64 {
    if rows <= u64::MAX {
        rows as u64
    } else {
        u64::MAX
    }
}

/// Holds of the tokens with this key.
pub open spec fn token_has_key(key: Seq<char>) -> spec_fn(TokenView) -> bool {
    |token: TokenView| token.key == key
}

/// Holds of the tenants with this id.
pub open spec fn client_has_id(id: i64) -> spec_fn(ClientView) -> bool {
    |client: ClientView| client.id == id
}

/// Holds of the work-lists that this tenant owns.
pub open spec fn owned_by(owner: i64) -> spec_fn(WorkListRecord) -> bool {
    |record: WorkListRecord| record.owner == owner
}

/// Holds of the work-lists with this id that this tenant owns.
pub open spec fn is_list(id: i64, owner: i64) -> spec_fn(WorkListRecord) -> bool {
    |record: WorkListRecord| record.id == id && record.owner == owner
}

/// Holds of every work-list but those with this id that this tenant owns.
pub open spec fn is_other_list(id: i64, owner: i64) -> spec_fn(WorkListRecord) -> bool {
    |record: WorkListRecord| !(record.id == id && record.owner == owner)
}

/// Holds of the todos that belong to one of the work-lists.
pub open spec fn in_lists(work_list_ids: Seq<i64>) -> spec_fn(TodoView) -> bool {
    |todo: TodoView| work_list_ids.contains(todo.work_list_id)
}

/// Holds of the todos with this id in this work-list.
pub open spec fn is_todo(id: i64, work_list_id: i64) -> spec_fn(TodoView) -> bool {
    |todo: TodoView| todo.id == id && todo.work_list_id == work_list_id
}

/// Holds of every todo but those with this id in this work-list.
pub open spec fn is_other_todo(id: i64, work_list_id: i64) -> spec_fn(TodoView) -> bool {
    |todo: TodoView| !(todo.id == id && todo.work_list_id == work_list_id)
}

impl Ledger {
    /// Ids are assigned once: no two work-lists share an id, no two todos
    /// do, and every id in use, also that of the work-list a todo names,
    /// lies below the next one to be given out.
    pub open spec fn well_formed(self) -> bool {
        &&& forall|i: int|
            0 <= i < self.todos.len() ==> (#[trigger] self.todos[i]).work_list_id
                < self.next_work_list_id
        &&& forall|i: int, j: int|
            0 <= i < self.work_lists.len() && 0 <= j < self.work_lists.len()
                && #[trigger] self.work_lists[i].id == #[trigger] self.work_lists[j].id ==> i == j
        &&& forall|i: int|
            0 <= i < self.work_lists.len() ==> (#[trigger] self.work_lists[i]).id
                < self.next_work_list_id
        &&& forall|i: int, j: int|
            0 <= i < self.todos.len() && 0 <= j < self.todos.len() && #[trigger] self.todos[i].id
                == #[trigger] self.todos[j].id ==> i == j
        &&& forall|i: int|
            0 <= i < self.todos.len() ==> (#[trigger] self.todos[i]).id < self.next_todo_id
        &&& 0 <= self.next_work_list_id <= i64::MAX + 1
        &&& 0 <= self.next_todo_id <= i64::MAX + 1
    }

    /// Whether the tenant owns a work-list with this id.
    pub open spec fn owns(self, owner: i64, work_list_id: i64) -> bool {
        exists|i: int|
            0 <= i < self.work_lists.len() && (#[trigger] self.work_lists[i]).id == work_list_id
                && self.work_lists[i].owner == owner
    }

    /// Holds of the todos with this id whose work-list the tenant owns.
    pub open spec fn is_todo_of(self, id: i64, owner: i64) -> spec_fn(TodoView) -> bool {
        |todo: TodoView| todo.id == id && self.owns(owner, todo.work_list_id)
    }

    /// The work-list rows the tenant owns, as a read returns them.
    pub open spec fn rows_of(self, owner: i64) -> Seq<WorkListRowView> {
        self.work_lists.filter(owned_by(owner)).map_values(|record: WorkListRecord| record.row())
    }

    /// The work-list row with this id, if the tenant owns it.
    pub open spec fn row_of(self, id: i64, owner: i64) -> Option<WorkListRowView> {
        match first_of(self.work_lists.filter(is_list(id, owner))) {
            Some(record) => Some(record.row()),
            None => None,
        }
    }

    /// What storage answers to the query.
    pub open spec fn answer(self, query: QueryView) -> ReplyView {
        match query {
            QueryView::TokensByKey { key } => ReplyView::Tokens(
                self.tokens.filter(token_has_key(key)),
            ),
            QueryView::ClientById { id } => ReplyView::Client(
                first_of(self.clients.filter(client_has_id(id))),
            ),
            QueryView::InsertWorkList { .. } => if self.next_work_list_id <= i64::MAX {
                ReplyView::Inserted(Some(self.next_work_list_id as i64))
            } else {
                ReplyView::Failed
            },
            QueryView::WorkListsOf { owner } => ReplyView::WorkLists(self.rows_of(owner)),
            QueryView::WorkListOf { id, owner } => ReplyView::WorkList(self.row_of(id, owner)),
            QueryView::RenameWorkList { id, owner, .. } => ReplyView::Affected(
                affected(self.work_lists.filter(is_list(id, owner)).len()),
            ),
            QueryView::DeleteWorkList { id, owner } => ReplyView::Affected(
                affected(self.work_lists.filter(is_list(id, owner)).len()),
            ),
            QueryView::TodosIn { work_list_ids } => if work_list_ids.len() > 0 {
                ReplyView::Todos(self.todos.filter(in_lists(work_list_ids)))
            } else {
                ReplyView::Failed
            },
            QueryView::TodoOf { id, owner } => ReplyView::Todo(
                first_of(self.todos.filter(self.is_todo_of(id, owner))),
            ),
            QueryView::OwnsWorkList { work_list_id, owner } => ReplyView::Flag(
                self.owns(owner, work_list_id),
            ),
            QueryView::InsertTodo { work_list_id, owner, .. } => if !self.owns(
                owner,
                work_list_id,
            ) {
                ReplyView::Inserted(None)
            } else if self.next_todo_id <= i64::MAX {
                ReplyView::Inserted(Some(self.next_todo_id as i64))
            } else {
                ReplyView::Failed
            },
            QueryView::UpdateTodo { id, work_list_id, assignments } => if assignments.len() > 0 {
                ReplyView::Affected(affected(self.todos.filter(is_todo(id, work_list_id)).len()))
            } else {
                ReplyView::Failed
            },
            QueryView::DeleteTodo { id, work_list_id } => ReplyView::Affected(
                affected(self.todos.filter(is_todo(id, work_list_id)).len()),
            ),
        }
    }

    /// What storage holds once it has answered the query.
    pub open spec fn after(self, query: QueryView) -> Ledger {
        match query {
            QueryView::InsertWorkList { name, owner } => if self.next_work_list_id <= i64::MAX {
                Ledger {
                    work_lists: self.work_lists.push(
                        WorkListRecord { id: self.next_work_list_id as i64, name, owner },
                    ),
                    next_work_list_id: self.next_work_list_id + 1,
                    ..self
                }
            } else {
                self
            },
            QueryView::RenameWorkList { id, owner, name } => Ledger {
                work_lists: self.work_lists.map_values(
                    |record: WorkListRecord|
                        if record.id == id && record.owner == owner {
                            WorkListRecord { name, ..record }
                        } else {
                            record
                        },
                ),
                ..self
            },
            QueryView::DeleteWorkList { id, owner } => Ledger {
                work_lists: self.work_lists.filter(is_other_list(id, owner)),
                ..self
            },
            QueryView::InsertTodo { content, work_list_id, owner } => if self.owns(
                owner,
                work_list_id,
            ) && self.next_todo_id <= i64::MAX {
                Ledger {
                    todos: self.todos.push(
                        TodoView {
                            id: self.next_todo_id as i64,
                            content,
                            completed: false,
                            work_list_id,
                        },
                    ),
                    next_todo_id: self.next_todo_id + 1,
                    ..self
                }
            } else {
                self
            },
            QueryView::UpdateTodo { id, work_list_id, assignments } => Ledger {
                todos: self.todos.map_values(
                    |todo: TodoView|
                        if todo.id == id && todo.work_list_id == work_list_id {
                            apply_all(assignments, todo)
                        } else {
                            todo
                        },
                ),
                ..self
            },
            QueryView::DeleteTodo { id, work_list_id } => Ledger {
                todos: self.todos.filter(is_other_todo(id, work_list_id)),
                ..self
            },
            _ => self,
        }
    }
}

} // verus!
