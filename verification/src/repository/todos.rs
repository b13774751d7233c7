use vstd::prelude::*;
use crate::error::WebError;
use crate::forms::todo::{CreateTodo, UpdateTodo};
use crate::model::todo::{Todo, TodoView};
use crate::patch::lemma_assignments_apply_the_patch;
use crate::storage::memory::MemoryStore;
use crate::storage::outcome::lemma_stored_todo_has_a_row;
use crate::storage::query::QueryView;
use crate::storage::reply::Step;
use crate::web_app::client::Client;

verus! {

impl Todo {
    /// Looks the todo up by its id and the owner of its work-list.
    pub fn find(id: i64, client: &Client, store: &mut MemoryStore) -> (result: Result<Todo, WebError>)
        ensures
            final(store)@ == old(store)@,
            match result {
                Ok(todo) => old(store)@.found_todo(id, client@.id) == Ok::<TodoView, WebError>(
                    todo@,
                ),
                Err(error) => old(store)@.found_todo(id, client@.id) == Err::<TodoView, WebError>(
                    error,
                ),
            },
    {
        match Todo::begin_find(id, client) {
            Step::Ask(query, pending) => {
                let reply = store.execute(&query);
                match pending.resume(reply) {
                    Step::Done(result) => result,
                    Step::Ask(_, _) => Err(WebError::StorageFailure),
                }
            },
            Step::Done(result) => result,
        }
    }

    /// Creates a todo under a work-list of the tenant in the store.
    pub fn create(form: CreateTodo, client: &Client, store: &mut MemoryStore) -> (result: Result<
        Todo,
        WebError,
    >)
        ensures
            final(store)@ == old(store)@.after(
                QueryView::InsertTodo {
                    content: form.content@,
                    work_list_id: form.work_list_id,
                    owner: client@.id,
                },
            ),
            match result {
                Ok(todo) => old(store)@.created_todo(form.content@, form.work_list_id, client@.id)
                    == Ok::<TodoView, WebError>(todo@),
                Err(error) => old(store)@.created_todo(
                    form.content@,
                    form.work_list_id,
                    client@.id,
                ) == Err::<TodoView, WebError>(error),
            },
    {
        match Todo::begin_create(form, client) {
            Step::Ask(query, pending) => {
                let reply = store.execute(&query);
                match pending.resume(reply) {
                    Step::Done(result) => result,
                    Step::Ask(_, _) => Err(WebError::StorageFailure),
                }
            },
            Step::Done(result) => result,
        }
    }

    /// Applies a sparse update to the todo in the store on behalf of the
    /// tenant, and to the todo itself once the store has changed a row.
    pub fn update(&mut self, form: UpdateTodo, client: &Client, store: &mut MemoryStore) -> (result:
        Result<(), WebError>)
        ensures
            final(store)@ == old(store)@.after_update(old(self)@, form@, client@.id),
            match old(store)@.updated_todo(old(self)@, form@, client@.id) {
                Ok(todo) => result is Ok && final(self)@ == todo,
                Err(error) => result == Err::<(), WebError>(error) && final(self)@ == old(self)@,
            },
    {
        proof {
            lemma_stored_todo_has_a_row(store@, self.id, self.work_list_id);
            lemma_assignments_apply_the_patch(form@, self@);
        }
        match self.begin_update(form, client) {
            Step::Ask(query, pending) => {
                let reply = store.execute(&query);
                match pending.resume(self, reply) {
                    Step::Ask(query, pending) => {
                        let reply = store.execute(&query);
                        match pending.resume(self, reply) {
                            Step::Done(result) => result,
                            Step::Ask(_, _) => Err(WebError::StorageFailure),
                        }
                    },
                    Step::Done(result) => result,
                }
            },
            Step::Done(result) => result,
        }
    }

    /// Deletes the todo from the store on behalf of the tenant.
    pub fn delete(self, client: &Client, store: &mut MemoryStore) -> (result: Result<(), WebError>)
        ensures
            final(store)@ == old(store)@.after_delete(self@, client@.id),
            match old(store)@.deleted_todo(self@, client@.id) {
                Ok(_) => result is Ok,
                Err(error) => result == Err::<(), WebError>(error),
            },
    {
        proof {
            lemma_stored_todo_has_a_row(store@, self.id, self.work_list_id);
        }
        match self.begin_delete(client) {
            Step::Ask(query, pending) => {
                let reply = store.execute(&query);
                match pending.resume(reply) {
                    Step::Ask(query, pending) => {
                        let reply = store.execute(&query);
                        match pending.resume(reply) {
                            Step::Done(result) => result,
                            Step::Ask(_, _) => Err(WebError::StorageFailure),
                        }
                    },
                    Step::Done(result) => result,
                }
            },
            Step::Done(result) => result,
        }
    }
}

} // verus!
