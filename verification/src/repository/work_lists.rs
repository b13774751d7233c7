use vstd::prelude::*;
use crate::error::WebError;
use crate::forms::work_list::{CreateWorkList, UpdateWorkList};
use crate::model::todo::TodoView;
use crate::model::work_list::{grouped, todos_of, work_list_views, WorkList, WorkListView};
use crate::storage::ledger::{in_lists, is_list, Ledger};
use crate::storage::memory::MemoryStore;
use crate::storage::outcome::lemma_owner_has_a_row;
use crate::storage::query::QueryView;
use crate::storage::reply::{row_ids, Step, WorkListRowView};
use crate::storage::rows::{lemma_filter_agrees, lemma_filter_positions, lemma_filter_refines};
use crate::web_app::client::Client;

verus! {

/// The row a tenant-scoped lookup returns has the id that was asked for.
pub proof fn lemma_row_has_the_id(ledger: Ledger, id: i64, owner: i64)
    requires
        ledger.row_of(id, owner) is Some,
    ensures
        ledger.row_of(id, owner)->Some_0.id == id,
{
    let positions = lemma_filter_positions(ledger.work_lists, is_list(id, owner));
    assert(is_list(id, owner)(ledger.work_lists[positions[0]]));
}

/// Asking for the todos of one work-list gives the todos that belong to it.
pub proof fn lemma_todos_of_one_list(todos: Seq<TodoView>, id: i64)
    ensures
        todos.filter(in_lists(seq![id])) == todos_of(todos, id),
{
    assert forall|i: int| 0 <= i < todos.len() implies in_lists(seq![id])(#[trigger] todos[i]) == (
    todos[i].work_list_id == id) by {
        if todos[i].work_list_id == id {
            assert(seq![id][0] == id);
        }
    }
    lemma_filter_agrees(todos, in_lists(seq![id]), |todo: TodoView| todo.work_list_id == id);
}

/// Grouping the todos of the listed work-lists gives each work-list the
/// todos that belong to it among all todos.
pub proof fn lemma_grouping_the_asked_todos(rows: Seq<WorkListRowView>, todos: Seq<TodoView>)
    ensures
        grouped(rows, todos.filter(in_lists(row_ids(rows)))) == grouped(rows, todos),
{
    let ids = row_ids(rows);
    let asked = todos.filter(in_lists(ids));
    assert forall|k: int| 0 <= k < rows.len() implies todos_of(asked, rows[k].id) == todos_of(
        todos,
        rows[k].id,
    ) by {
        let id = rows[k].id;
        assert(ids[k] == id);
        assert forall|i: int|
            0 <= i < todos.len() && (#[trigger] todos[i]).work_list_id == id implies in_lists(ids)(
            todos[i],
        ) by {
            assert(ids.contains(id));
        }
        lemma_filter_refines(todos, in_lists(ids), |todo: TodoView| todo.work_list_id == id);
    }
    assert(grouped(rows, asked) =~= grouped(rows, todos));
}

impl WorkList {
    /// Creates a work-list for the tenant in the store.
    pub fn create(form: CreateWorkList, client: &Client, store: &mut MemoryStore) -> (result: Result<
        WorkList,
        WebError,
    >)
        ensures
            final(store)@ == old(store)@.after(
                QueryView::InsertWorkList { name: form.name@, owner: client@.id },
            ),
            match result {
                Ok(list) => old(store)@.created_list(form.name@) == Ok::<WorkListView, WebError>(
                    list@,
                ),
                Err(error) => old(store)@.created_list(form.name@) == Err::<WorkListView, WebError>(
                    error,
                ),
            },
    {
        match WorkList::begin_create(form, client) {
            Step::Ask(query, pending) => {
                let reply = store.execute(&query);
                match pending.resume(reply) {
                    Step::Done(result) => result,
                    Step::Ask(_, _) => Err(WebError::StorageFailure),
                }
            },
            Step::Done(result) => result,
        }
    }

    /// Lists the work-lists the tenant owns, each with its todos.
    pub fn list(client: &Client, store: &mut MemoryStore) -> (result: Result<Vec<WorkList>, WebError>)
        ensures
            final(store)@ == old(store)@,
            result matches Ok(lists) && work_list_views(lists@) == old(store)@.listed(client@.id),
    {
        let ghost ledger = store@;
        match WorkList::begin_list(client) {
            Step::Ask(query, pending) => {
                let reply = store.execute(&query);
                match pending.resume(reply) {
                    Step::Ask(query, pending) => {
                        let reply = store.execute(&query);
                        proof {
                            lemma_grouping_the_asked_todos(
                                ledger.rows_of(client@.id),
                                ledger.todos,
                            );
                        }
                        match pending.resume(reply) {
                            Step::Done(result) => result,
                            Step::Ask(_, _) => Err(WebError::StorageFailure),
                        }
                    },
                    Step::Done(result) => {
                        proof {
                            if result is Ok {
                                assert(work_list_views(result->Ok_0@) =~= ledger.listed(
                                    client@.id,
                                ));
                            }
                        }
                        result
                    },
                }
            },
            Step::Done(result) => result,
        }
    }

    /// Looks the work-list up by its id and its owner.
    pub fn find(id: i64, client: &Client, store: &mut MemoryStore) -> (result: Result<
        WorkList,
        WebError,
    >)
        ensures
            final(store)@ == old(store)@,
            match result {
                Ok(list) => old(store)@.found_list(id, client@.id) == Ok::<WorkListView, WebError>(
                    list@,
                ),
                Err(error) => old(store)@.found_list(id, client@.id) == Err::<
                    WorkListView,
                    WebError,
                >(error),
            },
    {
        let ghost ledger = store@;
        match WorkList::begin_find(id, client) {
            Step::Ask(query, pending) => {
                let reply = store.execute(&query);
                match pending.resume(reply) {
                    Step::Ask(query, pending) => {
                        let reply = store.execute(&query);
                        proof {
                            lemma_row_has_the_id(ledger, id, client@.id);
                            lemma_todos_of_one_list(ledger.todos, id);
                        }
                        match pending.resume(reply) {
                            Step::Done(result) => result,
                            Step::Ask(_, _) => Err(WebError::StorageFailure),
                        }
                    },
                    Step::Done(result) => result,
                }
            },
            Step::Done(result) => result,
        }
    }

    /// Renames the work-list in the store on behalf of the tenant, and
    /// takes the new name if the store changed a row.
    pub fn update(&mut self, client: &Client, form: UpdateWorkList, store: &mut MemoryStore) -> (result:
        Result<(), WebError>)
        ensures
            final(store)@ == old(store)@.after(
                QueryView::RenameWorkList { id: old(self)@.id, owner: client@.id, name: form.name@ },
            ),
            match old(store)@.renamed_list(old(self)@, client@.id, form.name@) {
                Ok(list) => result is Ok && final(self)@ == list,
                Err(error) => result == Err::<(), WebError>(error) && final(self)@ == old(self)@,
            },
    {
        proof {
            lemma_owner_has_a_row(store@, self@.id, client@.id);
        }
        match self.begin_update(client, form) {
            Step::Ask(query, pending) => {
                let reply = store.execute(&query);
                match pending.resume(self, reply) {
                    Step::Done(result) => result,
                    Step::Ask(_, _) => Err(WebError::StorageFailure),
                }
            },
            Step::Done(result) => result,
        }
    }

    /// Deletes the work-list from the store on behalf of the tenant. Its
    /// todos stay in the store.
    pub fn delete(self, client: &Client, store: &mut MemoryStore) -> (result: Result<(), WebError>)
        ensures
            final(store)@ == old(store)@.after(
                QueryView::DeleteWorkList { id: self@.id, owner: client@.id },
            ),
            match old(store)@.deleted_list(self@.id, client@.id) {
                Ok(_) => result is Ok,
                Err(error) => result == Err::<(), WebError>(error),
            },
    {
        proof {
            lemma_owner_has_a_row(store@, self@.id, client@.id);
        }
        match self.begin_delete(client) {
            Step::Ask(query, pending) => {
                let reply = store.execute(&query);
                match pending.resume(reply) {
                    Step::Done(result) => result,
                    Step::Ask(_, _) => Err(WebError::StorageFailure),
                }
            },
            Step::Done(result) => result,
        }
    }
}

} // verus!
