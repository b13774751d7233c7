use vstd::prelude::*;
use crate::patch::lemma_assignments_keep_identity;
use crate::storage::ledger::{is_other_list, is_other_todo, Ledger};
use crate::storage::query::QueryView;
use crate::storage::rows::lemma_filter_positions;

verus! {

impl Ledger {
    /// What storage holds once it has answered the queries one after the
    /// other.
    pub open spec fn after_all(self, queries: Seq<QueryView>) -> Ledger
        decreases queries.len(),
    {
        if queries.len() == 0 {
            self
        } else {
            self.after_all(queries.drop_last()).after(queries.last())
        }
    }
}

/// Storage answers every query in the shape the query asks for, or fails.
pub proof fn lemma_answers_have_the_expected_shape(ledger: Ledger, query: QueryView)
    ensures
        ledger.answer(query).kind() == query.expects() || ledger.answer(query) is Failed,
        ledger.answer(query) is Failed ==> ledger.after(query) == ledger,
{
    if ledger.answer(query) is Failed {
        match query {
            QueryView::UpdateTodo { .. } => {
                assert(ledger.after(query).todos =~= ledger.todos);
            },
            _ => {},
        }
    }
}

/// No query takes back an id: the ids that the next rows will get never
/// become smaller.
pub proof fn lemma_ids_only_grow(ledger: Ledger, query: QueryView)
    ensures
        ledger.next_work_list_id <= ledger.after(query).next_work_list_id,
        ledger.next_todo_id <= ledger.after(query).next_todo_id,
{
}

/// Over any run of queries the ids that the next rows will get never
/// become smaller.
pub proof fn lemma_ids_only_grow_over_time(ledger: Ledger, queries: Seq<QueryView>)
    ensures
        ledger.next_work_list_id <= ledger.after_all(queries).next_work_list_id,
        ledger.next_todo_id <= ledger.after_all(queries).next_todo_id,
    decreases queries.len(),
{
    if queries.len() > 0 {
        lemma_ids_only_grow_over_time(ledger, queries.drop_last());
        lemma_ids_only_grow(ledger.after_all(queries.drop_last()), queries.last());
    }
}

/// Every query leaves storage well formed: ids stay unique, and every id
/// in use stays below the next one to be given out.
pub proof fn lemma_queries_keep_ids_unique(ledger: Ledger, query: QueryView)
    requires
        ledger.well_formed(),
    ensures
        ledger.after(query).well_formed(),
{
    let next = ledger.after(query);
    match query {
        QueryView::InsertWorkList { .. } => {},
        QueryView::RenameWorkList { .. } => {},
        QueryView::DeleteWorkList { id, owner } => {
            let positions = lemma_filter_positions(ledger.work_lists, is_other_list(id, owner));
            assert forall|i: int, j: int|
                0 <= i < next.work_lists.len() && 0 <= j < next.work_lists.len()
                    && #[trigger] next.work_lists[i].id == #[trigger] next.work_lists[j].id implies i
                == j by {
                assert(next.work_lists[i] == ledger.work_lists[positions[i]]);
                assert(next.work_lists[j] == ledger.work_lists[positions[j]]);
                if i < j {
                    assert(positions[i] < positions[j]);
                }
                if j < i {
                    assert(positions[j] < positions[i]);
                }
            }
            assert forall|i: int| 0 <= i < next.work_lists.len() implies (
            #[trigger] next.work_lists[i]).id < next.next_work_list_id by {
                assert(next.work_lists[i] == ledger.work_lists[positions[i]]);
            }
        },
        QueryView::InsertTodo { work_list_id, owner, .. } => {
            if ledger.owns(owner, work_list_id) {
                let i = choose|i: int|
                    0 <= i < ledger.work_lists.len() && (#[trigger] ledger.work_lists[i]).id
                        == work_list_id && ledger.work_lists[i].owner == owner;
                assert(ledger.work_lists[i].id < ledger.next_work_list_id);
            }
        },
        QueryView::UpdateTodo { id, work_list_id, assignments } => {
            assert forall|i: int| 0 <= i < next.todos.len() implies (#[trigger] next.todos[i]).id
                == ledger.todos[i].id && next.todos[i].work_list_id
                == ledger.todos[i].work_list_id by {
                lemma_assignments_keep_identity(assignments, ledger.todos[i]);
            }
        },
        QueryView::DeleteTodo { id, work_list_id } => {
            let positions = lemma_filter_positions(ledger.todos, is_other_todo(id, work_list_id));
            assert forall|i: int, j: int|
                0 <= i < next.todos.len() && 0 <= j < next.todos.len()
                    && #[trigger] next.todos[i].id == #[trigger] next.todos[j].id implies i == j by {
                assert(next.todos[i] == ledger.todos[positions[i]]);
                assert(next.todos[j] == ledger.todos[positions[j]]);
                if i < j {
                    assert(positions[i] < positions[j]);
                }
                if j < i {
                    assert(positions[j] < positions[i]);
                }
            }
            assert forall|i: int| 0 <= i < next.todos.len() implies (#[trigger] next.todos[i]).id
                < next.next_todo_id && next.todos[i].work_list_id < next.next_work_list_id by {
                assert(next.todos[i] == ledger.todos[positions[i]]);
            }
        },
        _ => {},
    }
}

/// Any run of queries leaves storage well formed.
pub proof fn lemma_history_keeps_ids_unique(ledger: Ledger, queries: Seq<QueryView>)
    requires
        ledger.well_formed(),
    ensures
        ledger.after_all(queries).well_formed(),
    decreases queries.len(),
{
    if queries.len() > 0 {
        lemma_history_keeps_ids_unique(ledger, queries.drop_last());
        lemma_queries_keep_ids_unique(ledger.after_all(queries.drop_last()), queries.last());
    }
}

} // verus!
