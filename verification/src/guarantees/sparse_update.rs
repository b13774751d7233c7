use vstd::prelude::*;
use crate::error::WebError;
use crate::forms::todo::UpdateTodoView;
use crate::model::todo::TodoView;
use crate::patch::{lemma_assignments_apply_the_patch, patched};
use crate::storage::ledger::Ledger;

verus! {

/// A sparse update changes in storage exactly what it names: the todo
/// with the entity's id in the entity's work-list takes the fields that
/// are present and keeps the others; every other todo, and every other
/// table, stays as it was.
pub proof fn lemma_update_changes_only_what_it_names(
    ledger: Ledger,
    todo: TodoView,
    patch: UpdateTodoView,
    owner: i64,
)
    ensures
        ({
            let later = ledger.after_update(todo, patch, owner);
            &&& later.todos.len() == ledger.todos.len()
            &&& forall|i: int|
                0 <= i < ledger.todos.len() ==> #[trigger] later.todos[i] == if ledger.owns(
                    owner,
                    todo.work_list_id,
                ) && ledger.todos[i].id == todo.id && ledger.todos[i].work_list_id
                    == todo.work_list_id {
                    patched(patch, ledger.todos[i])
                } else {
                    ledger.todos[i]
                }
            &&& later.work_lists == ledger.work_lists
            &&& later.clients == ledger.clients
            &&& later.tokens == ledger.tokens
            &&& later.next_todo_id == ledger.next_todo_id
            &&& later.next_work_list_id == ledger.next_work_list_id
        }),
{
    let later = ledger.after_update(todo, patch, owner);
    assert forall|i: int| 0 <= i < ledger.todos.len() implies #[trigger] later.todos[i]
        == if ledger.owns(owner, todo.work_list_id) && ledger.todos[i].id == todo.id
        && ledger.todos[i].work_list_id == todo.work_list_id {
        patched(patch, ledger.todos[i])
    } else {
        ledger.todos[i]
    } by {
        lemma_assignments_apply_the_patch(patch, ledger.todos[i]);
    }
}

/// An update that names no field succeeds for the owner of the todo's
/// work-list, returns the todo as it was handed in, and changes nothing in
/// storage.
pub proof fn lemma_empty_update_changes_nothing(
    ledger: Ledger,
    todo: TodoView,
    patch: UpdateTodoView,
    owner: i64,
)
    requires
        patch.is_empty(),
    ensures
        ledger.after_update(todo, patch, owner) == ledger,
        ledger.owns(owner, todo.work_list_id) ==> ledger.updated_todo(todo, patch, owner) == Ok::<
            TodoView,
            WebError,
        >(todo),
{
}

/// An update that names only the content leaves the completion as it
/// was, and one that names only the completion leaves the content.
pub proof fn lemma_update_keeps_the_other_field(
    ledger: Ledger,
    todo: TodoView,
    patch: UpdateTodoView,
    owner: i64,
)
    requires
        ledger.updated_todo(todo, patch, owner) is Ok,
    ensures
        ({
            let updated = ledger.updated_todo(todo, patch, owner)->Ok_0;
            &&& updated.id == todo.id
            &&& updated.work_list_id == todo.work_list_id
            &&& patch.content is None ==> updated.content == todo.content
            &&& patch.completed is None ==> updated.completed == todo.completed
            &&& patch.content matches Some(text) ==> updated.content == text
            &&& patch.completed matches Some(flag) ==> updated.completed == flag
        }),
{
}

} // verus!
