use vstd::prelude::*;
use crate::error::WebError;
use crate::forms::todo::UpdateTodoView;
use crate::model::todo::TodoView;
use crate::model::work_list::{grouped, todos_of, WorkListView};
use crate::patch::{patch_assignments, patched};
use crate::storage::ledger::{client_has_id, first_of, is_list, is_todo, Ledger, token_has_key};
use crate::storage::query::QueryView;
use crate::storage::rows::lemma_filter_none;
use crate::web_app::client::ClientView;
use crate::web_app::credential::credential_of;
use crate::web_app::token::first_usable;

verus! {

impl Ledger {
    /// Whether a todo with this id is stored under this work-list.
    pub open spec fn holds_todo(self, id: i64, work_list_id: i64) -> bool {
        exists|i: int|
            0 <= i < self.todos.len() && (#[trigger] self.todos[i]).id == id
                && self.todos[i].work_list_id == work_list_id
    }

    /// The tenant a credential resolves to at a reading of the clock: the
    /// tenant of the first token with exactly this key that is usable.
    pub open spec fn tenant_of(self, key: Seq<char>, now: i64) -> Result<ClientView, WebError> {
        let tokens = self.tokens.filter(token_has_key(key));
        let first = first_usable(tokens, now);
        if first < tokens.len() {
            match first_of(self.clients.filter(client_has_id(tokens[first].tenant_id))) {
                Some(client) => Ok(client),
                None => Err(WebError::Unauthorized),
            }
        } else {
            Err(WebError::Unauthorized)
        }
    }

    /// The tenant a request is made for, judged by the text of its
    /// `Authorization` header.
    pub open spec fn authenticated(self, header: Option<Seq<char>>, now: i64) -> Result<
        ClientView,
        WebError,
    > {
        match header {
            Some(text) if credential_of(text) is Some => self.tenant_of(
                credential_of(text)->Some_0,
                now,
            ),
            _ => Err(WebError::Unauthorized),
        }
    }

    /// What creating a work-list returns.
    pub open spec fn created_list(self, name: Seq<char>) -> Result<WorkListView, WebError> {
        if self.next_work_list_id <= i64::MAX {
            Ok(WorkListView { id: self.next_work_list_id as i64, name, todos: Seq::empty() })
        } else {
            Err(WebError::StorageFailure)
        }
    }

    /// What listing the work-lists of a tenant returns: the work-lists the
    /// tenant owns, each with its own todos.
    pub open spec fn listed(self, owner: i64) -> Seq<WorkListView> {
        grouped(self.rows_of(owner), self.todos)
    }

    /// What looking a work-list up returns.
    pub open spec fn found_list(self, id: i64, owner: i64) -> Result<WorkListView, WebError> {
        match self.row_of(id, owner) {
            Some(row) => Ok(
                WorkListView { id: row.id, name: row.name, todos: todos_of(self.todos, row.id) },
            ),
            None => Err(WebError::NotFound),
        }
    }

    /// What renaming a work-list returns, and what the work-list is
    /// afterwards.
    pub open spec fn renamed_list(self, list: WorkListView, owner: i64, name: Seq<char>) -> Result<
        WorkListView,
        WebError,
    > {
        if self.owns(owner, list.id) {
            Ok(WorkListView { name, ..list })
        } else {
            Err(WebError::NotFound)
        }
    }

    /// What deleting a work-list returns.
    pub open spec fn deleted_list(self, id: i64, owner: i64) -> Result<(), WebError> {
        if self.owns(owner, id) {
            Ok(())
        } else {
            Err(WebError::NotFound)
        }
    }

    /// What looking a todo up returns.
    pub open spec fn found_todo(self, id: i64, owner: i64) -> Result<TodoView, WebError> {
        match first_of(self.todos.filter(self.is_todo_of(id, owner))) {
            Some(todo) => Ok(todo),
            None => Err(WebError::NotFound),
        }
    }

    /// What creating a todo returns.
    pub open spec fn created_todo(self, content: Seq<char>, work_list_id: i64, owner: i64) -> Result<
        TodoView,
        WebError,
    > {
        if !self.owns(owner, work_list_id) {
            Err(WebError::NotFound)
        } else if self.next_todo_id <= i64::MAX {
            Ok(TodoView { id: self.next_todo_id as i64, content, completed: false, work_list_id })
        } else {
            Err(WebError::StorageFailure)
        }
    }

    /// What a sparse update of a todo returns, and what the todo is
    /// afterwards.
    pub open spec fn updated_todo(self, todo: TodoView, patch: UpdateTodoView, owner: i64) -> Result<
        TodoView,
        WebError,
    > {
        if !self.owns(owner, todo.work_list_id) {
            Err(WebError::NotFound)
        } else if patch.is_empty() {
            Ok(todo)
        } else if self.holds_todo(todo.id, todo.work_list_id) {
            Ok(patched(patch, todo))
        } else {
            Err(WebError::NotFound)
        }
    }

    /// What storage holds after a sparse update of a todo.
    pub open spec fn after_update(self, todo: TodoView, patch: UpdateTodoView, owner: i64) -> Ledger {
        if self.owns(owner, todo.work_list_id) && !patch.is_empty() {
            self.after(
                QueryView::UpdateTodo {
                    id: todo.id,
                    work_list_id: todo.work_list_id,
                    assignments: patch_assignments(patch),
                },
            )
        } else {
            self
        }
    }

    /// What deleting a todo returns.
    pub open spec fn deleted_todo(self, todo: TodoView, owner: i64) -> Result<(), WebError> {
        if self.owns(owner, todo.work_list_id) && self.holds_todo(todo.id, todo.work_list_id) {
            Ok(())
        } else {
            Err(WebError::NotFound)
        }
    }

    /// What storage holds after a todo was deleted.
    pub open spec fn after_delete(self, todo: TodoView, owner: i64) -> Ledger {
        if self.owns(owner, todo.work_list_id) {
            self.after(QueryView::DeleteTodo { id: todo.id, work_list_id: todo.work_list_id })
        } else {
            self
        }
    }
}

/// A statement on a work-list touches a row exactly when the tenant owns a
/// work-list with that id.
pub proof fn lemma_owner_has_a_row(ledger: Ledger, id: i64, owner: i64)
    ensures
        ledger.owns(owner, id) <==> ledger.work_lists.filter(is_list(id, owner)).len() > 0,
{
    lemma_filter_none(ledger.work_lists, is_list(id, owner));
}

/// A statement on a todo touches a row exactly when a todo with that id is
/// stored under that work-list.
pub proof fn lemma_stored_todo_has_a_row(ledger: Ledger, id: i64, work_list_id: i64)
    ensures
        ledger.holds_todo(id, work_list_id) <==> ledger.todos.filter(is_todo(id, work_list_id)).len()
            > 0,
{
    lemma_filter_none(ledger.todos, is_todo(id, work_list_id));
}

} // verus!
