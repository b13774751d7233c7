use vstd::prelude::*;
use crate::error::WebError;
use crate::forms::todo::UpdateTodoView;
use crate::model::todo::TodoView;
use crate::model::work_list::WorkListView;
use crate::patch::patch_assignments;
use crate::storage::ledger::{is_list, is_other_list, is_other_todo, is_todo, Ledger};
use crate::storage::query::QueryView;
use crate::storage::rows::{lemma_filter_all, lemma_filter_none};

verus! {

/// A work-list has one owner: a tenant other than the owner of the
/// work-list at `position` owns no work-list with that id.
pub proof fn lemma_work_list_has_one_owner(ledger: Ledger, position: int, other: i64)
    requires
        ledger.well_formed(),
        0 <= position < ledger.work_lists.len(),
        ledger.work_lists[position].owner != other,
    ensures
        !ledger.owns(other, ledger.work_lists[position].id),
{
    if ledger.owns(other, ledger.work_lists[position].id) {
        let i = choose|i: int|
            0 <= i < ledger.work_lists.len() && (#[trigger] ledger.work_lists[i]).id
                == ledger.work_lists[position].id && ledger.work_lists[i].owner == other;
        assert(ledger.work_lists[i].id == ledger.work_lists[position].id);
    }
}

/// What a tenant does not own it cannot look up, rename or delete: for a
/// work-list that another tenant owns, each of the three is reported as
/// not found, the same answer as for an id that does not exist, and
/// storage stays as it was.
pub proof fn lemma_foreign_work_list_is_not_found(
    ledger: Ledger,
    position: int,
    intruder: i64,
    list: WorkListView,
    name: Seq<char>,
)
    requires
        ledger.well_formed(),
        0 <= position < ledger.work_lists.len(),
        ledger.work_lists[position].owner != intruder,
        list.id == ledger.work_lists[position].id,
    ensures
        ledger.found_list(list.id, intruder) == Err::<WorkListView, WebError>(WebError::NotFound),
        ledger.renamed_list(list, intruder, name) == Err::<WorkListView, WebError>(
            WebError::NotFound,
        ),
        ledger.after(QueryView::RenameWorkList { id: list.id, owner: intruder, name }) == ledger,
        ledger.deleted_list(list.id, intruder) == Err::<(), WebError>(WebError::NotFound),
        ledger.after(QueryView::DeleteWorkList { id: list.id, owner: intruder }) == ledger,
{
    lemma_work_list_has_one_owner(ledger, position, intruder);
    lemma_nothing_owned_nothing_touched(ledger, list.id, intruder, name);
}

/// A statement on a work-list that the tenant does not own finds no row
/// and changes none.
pub proof fn lemma_nothing_owned_nothing_touched(
    ledger: Ledger,
    id: i64,
    owner: i64,
    name: Seq<char>,
)
    requires
        !ledger.owns(owner, id),
    ensures
        ledger.row_of(id, owner) is None,
        ledger.after(QueryView::RenameWorkList { id, owner, name }) == ledger,
        ledger.after(QueryView::DeleteWorkList { id, owner }) == ledger,
{
    lemma_filter_none(ledger.work_lists, is_list(id, owner));
    lemma_filter_all(ledger.work_lists, is_other_list(id, owner));
    let renamed = ledger.after(QueryView::RenameWorkList { id, owner, name });
    assert(renamed.work_lists =~= ledger.work_lists);
}

/// A todo in a work-list that the tenant does not own is out of the
/// tenant's reach. Whatever entity with the todo's id the tenant hands in,
/// and whatever the sparse update holds: looking the todo up and deleting
/// it are reported as not found, so is every update that names a field or
/// whose entity names the todo's true work-list, and storage stays as it
/// was.
pub proof fn lemma_foreign_todo_is_not_found(
    ledger: Ledger,
    position: int,
    intruder: i64,
    todo: TodoView,
    patch: UpdateTodoView,
)
    requires
        ledger.well_formed(),
        0 <= position < ledger.todos.len(),
        !ledger.owns(intruder, ledger.todos[position].work_list_id),
        todo.id == ledger.todos[position].id,
    ensures
        ledger.found_todo(todo.id, intruder) == Err::<TodoView, WebError>(WebError::NotFound),
        ledger.deleted_todo(todo, intruder) == Err::<(), WebError>(WebError::NotFound),
        ledger.after_delete(todo, intruder) == ledger,
        ledger.after_update(todo, patch, intruder) == ledger,
        todo.work_list_id == ledger.todos[position].work_list_id || !patch.is_empty()
            ==> ledger.updated_todo(todo, patch, intruder) == Err::<TodoView, WebError>(
            WebError::NotFound,
        ),
        ledger.updated_todo(todo, patch, intruder) is Ok ==> ledger.updated_todo(
            todo,
            patch,
            intruder,
        ) == Ok::<TodoView, WebError>(todo),
{
    let stored = ledger.todos[position];
    // No other row has the todo's id, so only the stored row can match.
    assert forall|i: int| 0 <= i < ledger.todos.len() implies !ledger.is_todo_of(
        todo.id,
        intruder,
    )(#[trigger] ledger.todos[i]) by {
        if ledger.todos[i].id == todo.id {
            assert(ledger.todos[i].id == ledger.todos[position].id);
        }
    }
    lemma_filter_none(ledger.todos, ledger.is_todo_of(todo.id, intruder));
    if ledger.owns(intruder, todo.work_list_id) {
        assert(todo.work_list_id != stored.work_list_id);
        assert forall|i: int| 0 <= i < ledger.todos.len() implies !is_todo(
            todo.id,
            todo.work_list_id,
        )(#[trigger] ledger.todos[i]) by {
            if ledger.todos[i].id == todo.id {
                assert(ledger.todos[i].id == ledger.todos[position].id);
            }
        }
        assert(!ledger.holds_todo(todo.id, todo.work_list_id)) by {
            if ledger.holds_todo(todo.id, todo.work_list_id) {
                let i = choose|i: int|
                    0 <= i < ledger.todos.len() && (#[trigger] ledger.todos[i]).id == todo.id
                        && ledger.todos[i].work_list_id == todo.work_list_id;
                assert(is_todo(todo.id, todo.work_list_id)(ledger.todos[i]));
            }
        }
        lemma_filter_all(ledger.todos, is_other_todo(todo.id, todo.work_list_id));
        let updated = ledger.after(
            QueryView::UpdateTodo {
                id: todo.id,
                work_list_id: todo.work_list_id,
                assignments: patch_assignments(patch),
            },
        );
        assert(updated.todos =~= ledger.todos);
    }
}

/// A todo is owned through its work-list: for a todo in a work-list that
/// another tenant owns, looking it up, updating it and deleting it are
/// each reported as not found, whatever the update holds, and storage
/// stays as it was.
pub proof fn lemma_todo_of_another_tenant_is_not_found(
    ledger: Ledger,
    list_position: int,
    todo_position: int,
    intruder: i64,
    patch: UpdateTodoView,
)
    requires
        ledger.well_formed(),
        0 <= list_position < ledger.work_lists.len(),
        0 <= todo_position < ledger.todos.len(),
        ledger.work_lists[list_position].owner != intruder,
        ledger.todos[todo_position].work_list_id == ledger.work_lists[list_position].id,
    ensures
        ({
            let todo = ledger.todos[todo_position];
            &&& ledger.found_todo(todo.id, intruder) == Err::<TodoView, WebError>(WebError::NotFound)
            &&& ledger.updated_todo(todo, patch, intruder) == Err::<TodoView, WebError>(
                WebError::NotFound,
            )
            &&& ledger.deleted_todo(todo, intruder) == Err::<(), WebError>(WebError::NotFound)
            &&& ledger.after_update(todo, patch, intruder) == ledger
            &&& ledger.after_delete(todo, intruder) == ledger
        }),
{
    lemma_work_list_has_one_owner(ledger, list_position, intruder);
    lemma_foreign_todo_is_not_found(
        ledger,
        todo_position,
        intruder,
        ledger.todos[todo_position],
        patch,
    );
}

/// Whatever a tenant asks storage to do to a work-list by id and owner,
/// the work-lists of every other tenant stay as they are, row by row.
pub proof fn lemma_other_tenants_work_lists_stay(
    ledger: Ledger,
    id: i64,
    owner: i64,
    name: Seq<char>,
    position: int,
)
    requires
        0 <= position < ledger.work_lists.len(),
        ledger.work_lists[position].owner != owner,
    ensures
        ledger.after(QueryView::RenameWorkList { id, owner, name }).work_lists[position]
            == ledger.work_lists[position],
        ledger.after(QueryView::DeleteWorkList { id, owner }).work_lists.contains(
            ledger.work_lists[position],
        ),
{
    let kept = ledger.work_lists.filter(is_other_list(id, owner));
    let positions = crate::storage::rows::lemma_filter_positions(
        ledger.work_lists,
        is_other_list(id, owner),
    );
    let k = choose|k: int| 0 <= k < positions.len() && #[trigger] positions[k] == position;
    assert(kept[k] == ledger.work_lists[position]);
}

/// Whatever entity a tenant hands in to update or delete a todo, and
/// whatever the sparse update holds, the todos in work-lists that the
/// tenant does not own stay in storage as they are.
pub proof fn lemma_other_tenants_todos_stay(
    ledger: Ledger,
    todo: TodoView,
    patch: UpdateTodoView,
    owner: i64,
    position: int,
)
    requires
        0 <= position < ledger.todos.len(),
        !ledger.owns(owner, ledger.todos[position].work_list_id),
    ensures
        ledger.after_update(todo, patch, owner).todos[position] == ledger.todos[position],
        ledger.after_delete(todo, owner).todos.contains(ledger.todos[position]),
{
    if ledger.owns(owner, todo.work_list_id) {
        let keep = is_other_todo(todo.id, todo.work_list_id);
        let kept = ledger.todos.filter(keep);
        let positions = crate::storage::rows::lemma_filter_positions(ledger.todos, keep);
        assert(keep(ledger.todos[position]));
        let k = choose|k: int| 0 <= k < positions.len() && #[trigger] positions[k] == position;
        assert(kept[k] == ledger.todos[position]);
    }
}

} // verus!
