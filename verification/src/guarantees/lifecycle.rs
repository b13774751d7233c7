use vstd::prelude::*;
use crate::error::WebError;
use crate::model::todo::TodoView;
use crate::model::work_list::{todos_of, WorkListView};
use crate::storage::history::lemma_ids_only_grow_over_time;
use crate::storage::ledger::{is_list, is_other_list, Ledger, owned_by, WorkListRecord};
use crate::storage::query::QueryView;
use crate::storage::rows::{lemma_filter_first, lemma_filter_none, lemma_filter_positions};

verus! {

/// An id that a creation returned is never returned again: whatever
/// storage is asked in between, a later creation, by the same tenant or by
/// another, returns a greater id.
pub proof fn lemma_created_work_list_ids_are_fresh(
    ledger: Ledger,
    name: Seq<char>,
    owner: i64,
    between: Seq<QueryView>,
    later_name: Seq<char>,
)
    requires
        ledger.well_formed(),
        ledger.created_list(name) is Ok,
        ledger.after(QueryView::InsertWorkList { name, owner }).after_all(between).created_list(
            later_name,
        ) is Ok,
    ensures
        ledger.created_list(name)->Ok_0.id < ledger.after(
            QueryView::InsertWorkList { name, owner },
        ).after_all(between).created_list(later_name)->Ok_0.id,
{
    lemma_ids_only_grow_over_time(ledger.after(QueryView::InsertWorkList { name, owner }), between);
}

/// The id of a new todo is never returned again: whatever storage is
/// asked in between, a later creation returns a greater id.
pub proof fn lemma_created_todo_ids_are_fresh(
    ledger: Ledger,
    content: Seq<char>,
    work_list_id: i64,
    owner: i64,
    between: Seq<QueryView>,
    later_content: Seq<char>,
    later_work_list_id: i64,
    later_owner: i64,
)
    requires
        ledger.well_formed(),
        ledger.created_todo(content, work_list_id, owner) is Ok,
        ledger.after(QueryView::InsertTodo { content, work_list_id, owner }).after_all(
            between,
        ).created_todo(later_content, later_work_list_id, later_owner) is Ok,
    ensures
        ledger.created_todo(content, work_list_id, owner)->Ok_0.id < ledger.after(
            QueryView::InsertTodo { content, work_list_id, owner },
        ).after_all(between).created_todo(later_content, later_work_list_id, later_owner)->Ok_0.id,
{
    lemma_ids_only_grow_over_time(
        ledger.after(QueryView::InsertTodo { content, work_list_id, owner }),
        between,
    );
}

/// A new work-list gets an id that no stored work-list has and that no
/// stored todo names. Once created, its owner finds it, with the name it
/// was given and without todos.
pub proof fn lemma_created_work_list_is_found_empty(ledger: Ledger, name: Seq<char>, owner: i64)
    requires
        ledger.well_formed(),
        ledger.created_list(name) is Ok,
    ensures
        forall|i: int|
            0 <= i < ledger.work_lists.len() ==> (#[trigger] ledger.work_lists[i]).id
                != ledger.created_list(name)->Ok_0.id,
        forall|i: int|
            0 <= i < ledger.todos.len() ==> (#[trigger] ledger.todos[i]).work_list_id
                != ledger.created_list(name)->Ok_0.id,
        ledger.after(QueryView::InsertWorkList { name, owner }).found_list(
            ledger.created_list(name)->Ok_0.id,
            owner,
        ) == ledger.created_list(name),
{
    let id = ledger.next_work_list_id as i64;
    let next = ledger.after(QueryView::InsertWorkList { name, owner });
    let last = ledger.work_lists.len() as int;
    assert(next.work_lists[last] == WorkListRecord { id, name, owner });
    assert forall|i: int| 0 <= i < last implies !is_list(id, owner)(
        #[trigger] next.work_lists[i],
    ) by {
        assert(next.work_lists[i] == ledger.work_lists[i]);
    }
    lemma_filter_first(next.work_lists, is_list(id, owner), last);
    lemma_filter_none(next.todos, |todo: TodoView| todo.work_list_id == id);
    assert(todos_of(next.todos, id) =~= Seq::<TodoView>::empty());
}

/// Once a tenant has deleted a work-list, the tenant no longer finds it.
/// The todos of the work-list are not deleted with it.
pub proof fn lemma_deleted_work_list_is_not_found(ledger: Ledger, id: i64, owner: i64)
    ensures
        ledger.after(QueryView::DeleteWorkList { id, owner }).todos == ledger.todos,
        ledger.after(QueryView::DeleteWorkList { id, owner }).found_list(id, owner) == Err::<
            WorkListView,
            WebError,
        >(WebError::NotFound),
        !ledger.after(QueryView::DeleteWorkList { id, owner }).owns(owner, id),
{
    let next = ledger.after(QueryView::DeleteWorkList { id, owner });
    let positions = lemma_filter_positions(ledger.work_lists, is_other_list(id, owner));
    assert forall|i: int| 0 <= i < next.work_lists.len() implies !is_list(id, owner)(
        #[trigger] next.work_lists[i],
    ) by {
        assert(next.work_lists[i] == ledger.work_lists[positions[i]]);
    }
    lemma_filter_none(next.work_lists, is_list(id, owner));
}

/// No stored work-list has the id, and the id was given out before.
pub open spec fn retired(ledger: Ledger, id: i64) -> bool {
    &&& id < ledger.next_work_list_id
    &&& forall|i: int| 0 <= i < ledger.work_lists.len() ==> (#[trigger] ledger.work_lists[i]).id != id
}

/// The id of a deleted work-list is retired for good: whatever storage is
/// asked afterwards, no work-list ever has that id again, so no tenant
/// finds a work-list under it, and the todos that were left behind stay
/// out of every tenant's reach.
pub proof fn lemma_deleted_work_list_stays_gone(
    ledger: Ledger,
    id: i64,
    owner: i64,
    afterwards: Seq<QueryView>,
    anyone: i64,
    todo_id: i64,
)
    requires
        ledger.well_formed(),
        ledger.owns(owner, id),
    ensures
        ({
            let later = ledger.after(QueryView::DeleteWorkList { id, owner }).after_all(afterwards);
            &&& retired(later, id)
            &&& later.found_list(id, anyone) == Err::<WorkListView, WebError>(WebError::NotFound)
            &&& later.found_todo(todo_id, anyone) matches Ok(todo) ==> todo.work_list_id != id
        }),
{
    let deleted = ledger.after(QueryView::DeleteWorkList { id, owner });
    let position = choose|i: int|
        0 <= i < ledger.work_lists.len() && (#[trigger] ledger.work_lists[i]).id == id
            && ledger.work_lists[i].owner == owner;
    let positions = lemma_filter_positions(ledger.work_lists, is_other_list(id, owner));
    assert forall|i: int| 0 <= i < deleted.work_lists.len() implies (
    #[trigger] deleted.work_lists[i]).id != id by {
        assert(deleted.work_lists[i] == ledger.work_lists[positions[i]]);
        if ledger.work_lists[positions[i]].id == id {
            assert(ledger.work_lists[positions[i]].id == ledger.work_lists[position].id);
        }
    }
    assert(ledger.work_lists[position].id < ledger.next_work_list_id);
    lemma_retired_ids_stay_retired(deleted, id, afterwards);
    let later = deleted.after_all(afterwards);
    assert(!later.owns(anyone, id));
    lemma_filter_none(later.work_lists, is_list(id, anyone));
    if later.found_todo(todo_id, anyone) is Ok {
        let kept = lemma_filter_positions(later.todos, later.is_todo_of(todo_id, anyone));
        assert(later.is_todo_of(todo_id, anyone)(later.todos[kept[0]]));
    }
}

/// A retired id stays retired whatever storage is asked.
pub proof fn lemma_retired_ids_stay_retired(ledger: Ledger, id: i64, queries: Seq<QueryView>)
    requires
        retired(ledger, id),
    ensures
        retired(ledger.after_all(queries), id),
    decreases queries.len(),
{
    if queries.len() > 0 {
        let before = ledger.after_all(queries.drop_last());
        lemma_retired_ids_stay_retired(ledger, id, queries.drop_last());
        let next = before.after(queries.last());
        match queries.last() {
            QueryView::DeleteWorkList { id: gone, owner } => {
                let positions = lemma_filter_positions(
                    before.work_lists,
                    is_other_list(gone, owner),
                );
                assert forall|i: int| 0 <= i < next.work_lists.len() implies (
                #[trigger] next.work_lists[i]).id != id by {
                    assert(next.work_lists[i] == before.work_lists[positions[i]]);
                }
            },
            _ => {},
        }
    }
}

/// A tenant that owns no work-list is listed none.
pub proof fn lemma_tenant_without_work_lists_lists_nothing(ledger: Ledger, owner: i64)
    requires
        forall|i: int|
            0 <= i < ledger.work_lists.len() ==> (#[trigger] ledger.work_lists[i]).owner != owner,
    ensures
        ledger.rows_of(owner).len() == 0,
        ledger.listed(owner) == Seq::<WorkListView>::empty(),
{
    lemma_filter_none(ledger.work_lists, owned_by(owner));
    assert(ledger.listed(owner) =~= Seq::<WorkListView>::empty());
}

} // verus!
