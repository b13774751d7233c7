use vstd::prelude::*;
use vstd::string::*;
use crate::model::todo::{Todo, TodoView, todo_views};
use crate::patch::{apply_all, apply_assignments, Assignment, assignment_views};
use crate::storage::ledger::{
    affected,
    client_has_id,
    first_of,
    in_lists,
    is_list,
    is_other_list,
    is_other_todo,
    is_todo,
    Ledger,
    owned_by,
    token_has_key,
    WorkListRecord,
};
use crate::storage::history::lemma_queries_keep_ids_unique;
use crate::storage::query::{Query, QueryView};
use crate::storage::reply::{Reply, WorkListRow, row_views};
use crate::storage::rows::{
    lemma_filter_first,
    lemma_filter_next,
    lemma_filter_none,
    lemma_filter_nothing,
};
use crate::web_app::client::{Client, client_views};
use crate::web_app::token::{Token, token_views};

verus! {

/// A stored work-list together with its owner.
#[derive(Debug)]
pub struct WorkListEntry {
    pub id: i64,
    pub name: String,
    pub owner: i64,
}

impl View for WorkListEntry {
    type V = WorkListRecord;

    open spec fn view(&self) -> WorkListRecord {
        WorkListRecord { id: self.id, name: self.name@, owner: self.owner }
    }
}

/// The plain values of a run of stored work-lists, in the same order.
pub open spec fn record_views(entries: Seq<WorkListEntry>) -> Seq<WorkListRecord> {
    entries.map_values(|entry: WorkListEntry| entry@)
}

impl WorkListEntry {
    /// A copy with the same plain values.
    pub fn duplicate(&self) -> (copy: Self)
        ensures
            copy@ == self@,
    {
        WorkListEntry { id: self.id, name: self.name.clone(), owner: self.owner }
    }
}

/// A store that keeps its tables in memory and answers every query as
/// the ledger says.
#[derive(Debug)]
pub struct MemoryStore {
    tokens: Vec<Token>,
    clients: Vec<Client>,
    work_lists: Vec<WorkListEntry>,
    todos: Vec<Todo>,
    next_work_list_id: u64,
    next_todo_id: u64,
}

impl View for MemoryStore {
    type V = Ledger;

    closed spec fn view(&self) -> Ledger {
        Ledger {
            tokens: token_views(self.tokens@),
            clients: client_views(self.clients@),
            work_lists: record_views(self.work_lists@),
            todos: todo_views(self.todos@),
            next_work_list_id: self.next_work_list_id as int,
            next_todo_id: self.next_todo_id as int,
        }
    }
}

impl MemoryStore {
    /// A store without rows; the first ids it gives out are 1.
    pub fn new() -> (store: Self)
        ensures
            store@ == (Ledger {
                tokens: Seq::empty(),
                clients: Seq::empty(),
                work_lists: Seq::empty(),
                todos: Seq::empty(),
                next_work_list_id: 1,
                next_todo_id: 1,
            }),
            store@.well_formed(),
    {
        let store = MemoryStore {
            tokens: Vec::new(),
            clients: Vec::new(),
            work_lists: Vec::new(),
            todos: Vec::new(),
            next_work_list_id: 1,
            next_todo_id: 1,
        };
        assert(store@.tokens =~= Seq::empty());
        assert(store@.clients =~= Seq::empty());
        assert(store@.work_lists =~= Seq::empty());
        assert(store@.todos =~= Seq::empty());
        store
    }

    /// Registers a tenant.
    pub fn add_client(&mut self, client: Client)
        ensures
            final(self)@ == (Ledger { clients: old(self)@.clients.push(client@), ..old(self)@ }),
            old(self)@.well_formed() ==> final(self)@.well_formed(),
    {
        self.clients.push(client);
        assert(client_views(self.clients@) =~= client_views(old(self).clients@).push(client@));
    }

    /// Registers a token.
    pub fn add_token(&mut self, token: Token)
        ensures
            final(self)@ == (Ledger { tokens: old(self)@.tokens.push(token@), ..old(self)@ }),
            old(self)@.well_formed() ==> final(self)@.well_formed(),
    {
        self.tokens.push(token);
        assert(token_views(self.tokens@) =~= token_views(old(self).tokens@).push(token@));
    }

    fn tokens_by_key(&self, key: &String) -> (found: Vec<Token>)
        ensures
            token_views(found@) == self@.tokens.filter(token_has_key(key@)),
    {
        let ghost rows = token_views(self.tokens@);
        let ghost keep = token_has_key(key@);
        let mut found: Vec<Token> = Vec::new();
        let mut seen: usize = 0;
        proof {
            lemma_filter_nothing(rows, keep);
            assert(token_views(found@) =~= rows.take(0).filter(keep));
        }
        while seen < self.tokens.len()
            invariant
                seen <= self.tokens.len(),
                rows == token_views(self.tokens@),
                keep == token_has_key(key@),
                token_views(found@) == rows.take(seen as int).filter(keep),
            decreases self.tokens.len() - seen,
        {
            proof {
                lemma_filter_next(rows, keep, seen as int);
            }
            let ghost before = token_views(found@);
            if self.tokens[seen].key == *key {
                found.push(self.tokens[seen].duplicate());
                assert(token_views(found@) =~= before.push(rows[seen as int]));
            }
            seen = seen + 1;
        }
        proof {
            assert(rows.take(self.tokens.len() as int) =~= rows);
        }
        found
    }

    fn client_by_id(&self, id: i64) -> (found: Option<Client>)
        ensures
            match found {
                Some(client) => first_of(self@.clients.filter(client_has_id(id))) == Some(client@),
                None => first_of(self@.clients.filter(client_has_id(id))) is None,
            },
    {
        let ghost rows = client_views(self.clients@);
        let ghost keep = client_has_id(id);
        let mut seen: usize = 0;
        while seen < self.clients.len()
            invariant
                seen <= self.clients.len(),
                rows == client_views(self.clients@),
                keep == client_has_id(id),
                forall|i: int| 0 <= i < seen ==> !keep(#[trigger] rows[i]),
            decreases self.clients.len() - seen,
        {
            if self.clients[seen].id() == id {
                proof {
                    lemma_filter_first(rows, keep, seen as int);
                }
                return Some(self.clients[seen].duplicate());
            }
            seen = seen + 1;
        }
        proof {
            lemma_filter_none(rows, keep);
        }
        None
    }

    fn insert_work_list(&mut self, name: &String, owner: i64) -> (reply: Reply)
        ensures
            reply@ == old(self)@.answer(
                QueryView::InsertWorkList { name: name@, owner },
            ),
            final(self)@ == old(self)@.after(
                QueryView::InsertWorkList { name: name@, owner },
            ),
    {
        if self.next_work_list_id <= 0x7fff_ffff_ffff_ffff {
            let id = self.next_work_list_id as i64;
            self.work_lists.push(WorkListEntry { id, name: name.clone(), owner });
            self.next_work_list_id = self.next_work_list_id + 1;
            assert(record_views(self.work_lists@) =~= record_views(old(self).work_lists@).push(
                WorkListRecord { id, name: name@, owner },
            ));
            Reply::Inserted(Some(id))
        } else {
            Reply::Failed
        }
    }

    fn rows_of(&self, owner: i64) -> (found: Vec<WorkListRow>)
        ensures
            row_views(found@) == self@.rows_of(owner),
    {
        let ghost rows = record_views(self.work_lists@);
        let ghost keep = owned_by(owner);
        let ghost as_row = |record: WorkListRecord| record.row();
        let mut found: Vec<WorkListRow> = Vec::new();
        let mut seen: usize = 0;
        proof {
            lemma_filter_nothing(rows, keep);
            assert(row_views(found@) =~= rows.take(0).filter(keep).map_values(as_row));
        }
        while seen < self.work_lists.len()
            invariant
                seen <= self.work_lists.len(),
                rows == record_views(self.work_lists@),
                keep == owned_by(owner),
                as_row == (|record: WorkListRecord| record.row()),
                row_views(found@) == rows.take(seen as int).filter(keep).map_values(as_row),
            decreases self.work_lists.len() - seen,
        {
            proof {
                lemma_filter_next(rows, keep, seen as int);
            }
            let ghost before = rows.take(seen as int).filter(keep);
            let ghost found_before = row_views(found@);
            if self.work_lists[seen].owner == owner {
                let entry = &self.work_lists[seen];
                found.push(WorkListRow { id: entry.id, name: entry.name.clone() });
                assert(row_views(found@) =~= found_before.push(as_row(rows[seen as int])));
                assert(before.push(rows[seen as int]).map_values(as_row) =~= before.map_values(
                    as_row,
                ).push(as_row(rows[seen as int])));
            }
            seen = seen + 1;
        }
        proof {
            assert(rows.take(self.work_lists.len() as int) =~= rows);
        }
        found
    }

    fn row_of(&self, id: i64, owner: i64) -> (found: Option<WorkListRow>)
        ensures
            match found {
                Some(row) => self@.row_of(id, owner) == Some(row@),
                None => self@.row_of(id, owner) is None,
            },
    {
        let ghost rows = record_views(self.work_lists@);
        let ghost keep = is_list(id, owner);
        let mut seen: usize = 0;
        while seen < self.work_lists.len()
            invariant
                seen <= self.work_lists.len(),
                rows == record_views(self.work_lists@),
                keep == is_list(id, owner),
                forall|i: int| 0 <= i < seen ==> !keep(#[trigger] rows[i]),
            decreases self.work_lists.len() - seen,
        {
            let entry = &self.work_lists[seen];
            if entry.id == id && entry.owner == owner {
                proof {
                    lemma_filter_first(rows, keep, seen as int);
                }
                return Some(WorkListRow { id: entry.id, name: entry.name.clone() });
            }
            seen = seen + 1;
        }
        proof {
            lemma_filter_none(rows, keep);
        }
        None
    }

    fn owns(&self, owner: i64, work_list_id: i64) -> (owned: bool)
        ensures
            owned == self@.owns(owner, work_list_id),
    {
        let ghost rows = record_views(self.work_lists@);
        let mut seen: usize = 0;
        while seen < self.work_lists.len()
            invariant
                seen <= self.work_lists.len(),
                rows == record_views(self.work_lists@),
                forall|i: int|
                    0 <= i < seen ==> !((#[trigger] rows[i]).id == work_list_id && rows[i].owner
                        == owner),
            decreases self.work_lists.len() - seen,
        {
            let entry = &self.work_lists[seen];
            if entry.id == work_list_id && entry.owner == owner {
                assert(self@.work_lists[seen as int].id == work_list_id
                    && self@.work_lists[seen as int].owner == owner);
                return true;
            }
            seen = seen + 1;
        }
        false
    }

    fn count_lists(&self, id: i64, owner: i64) -> (count: u64)
        ensures
            count == affected(self@.work_lists.filter(is_list(id, owner)).len()),
    {
        let ghost rows = record_views(self.work_lists@);
        let ghost keep = is_list(id, owner);
        let mut count: u64 = 0;
        let mut seen: usize = 0;
        proof {
            lemma_filter_nothing(rows, keep);
        }
        while seen < self.work_lists.len()
            invariant
                seen <= self.work_lists.len(),
                rows == record_views(self.work_lists@),
                keep == is_list(id, owner),
                count == rows.take(seen as int).filter(keep).len(),
                count <= seen,
            decreases self.work_lists.len() - seen,
        {
            proof {
                lemma_filter_next(rows, keep, seen as int);
            }
            let entry = &self.work_lists[seen];
            if entry.id == id && entry.owner == owner {
                count = count + 1;
            }
            seen = seen + 1;
        }
        proof {
            assert(rows.take(self.work_lists.len() as int) =~= rows);
        }
        count
    }

    fn rename(&mut self, id: i64, owner: i64, name: &String)
        ensures
            final(self)@ == old(self)@.after(
                QueryView::RenameWorkList { id, owner, name: name@ },
            ),
    {
        let ghost rows = record_views(self.work_lists@);
        let ghost renamed = |record: WorkListRecord|
            if record.id == id && record.owner == owner {
                WorkListRecord { name: name@, ..record }
            } else {
                record
            };
        let mut updated: Vec<WorkListEntry> = Vec::new();
        let mut seen: usize = 0;
        while seen < self.work_lists.len()
            invariant
                seen <= self.work_lists.len(),
                *self == *old(self),
                rows == record_views(self.work_lists@),
                updated.len() == seen,
                renamed == (|record: WorkListRecord|
                    if record.id == id && record.owner == owner {
                        WorkListRecord { name: name@, ..record }
                    } else {
                        record
                    }),
                forall|i: int| 0 <= i < seen ==> (#[trigger] updated@[i])@ == renamed(rows[i]),
            decreases self.work_lists.len() - seen,
        {
            let entry = &self.work_lists[seen];
            if entry.id == id && entry.owner == owner {
                updated.push(WorkListEntry { id: entry.id, name: name.clone(), owner: entry.owner });
            } else {
                updated.push(entry.duplicate());
            }
            seen = seen + 1;
        }
        self.work_lists = updated;
        assert(record_views(self.work_lists@) =~= rows.map_values(renamed));
    }

    fn delete_list(&mut self, id: i64, owner: i64)
        ensures
            final(self)@ == old(self)@.after(
                QueryView::DeleteWorkList { id, owner },
            ),
    {
        let ghost rows = record_views(self.work_lists@);
        let ghost keep = is_other_list(id, owner);
        let mut kept: Vec<WorkListEntry> = Vec::new();
        let mut seen: usize = 0;
        proof {
            lemma_filter_nothing(rows, keep);
            assert(record_views(kept@) =~= rows.take(0).filter(keep));
        }
        while seen < self.work_lists.len()
            invariant
                seen <= self.work_lists.len(),
                *self == *old(self),
                rows == record_views(self.work_lists@),
                keep == is_other_list(id, owner),
                record_views(kept@) == rows.take(seen as int).filter(keep),
            decreases self.work_lists.len() - seen,
        {
            proof {
                lemma_filter_next(rows, keep, seen as int);
            }
            let ghost before = record_views(kept@);
            let entry = &self.work_lists[seen];
            if !(entry.id == id && entry.owner == owner) {
                kept.push(entry.duplicate());
                assert(record_views(kept@) =~= before.push(rows[seen as int]));
            }
            seen = seen + 1;
        }
        proof {
            assert(rows.take(self.work_lists.len() as int) =~= rows);
        }
        self.work_lists = kept;
    }

    fn todos_in(&self, work_list_ids: &Vec<i64>) -> (found: Vec<Todo>)
        ensures
            todo_views(found@) == self@.todos.filter(in_lists(work_list_ids@)),
    {
        let ghost rows = todo_views(self.todos@);
        let ghost keep = in_lists(work_list_ids@);
        let mut found: Vec<Todo> = Vec::new();
        let mut seen: usize = 0;
        proof {
            lemma_filter_nothing(rows, keep);
            assert(todo_views(found@) =~= rows.take(0).filter(keep));
        }
        while seen < self.todos.len()
            invariant
                seen <= self.todos.len(),
                rows == todo_views(self.todos@),
                keep == in_lists(work_list_ids@),
                todo_views(found@) == rows.take(seen as int).filter(keep),
            decreases self.todos.len() - seen,
        {
            proof {
                lemma_filter_next(rows, keep, seen as int);
            }
            let ghost before = todo_views(found@);
            if holds(work_list_ids, self.todos[seen].work_list_id) {
                found.push(self.todos[seen].duplicate());
                assert(todo_views(found@) =~= before.push(rows[seen as int]));
            }
            seen = seen + 1;
        }
        proof {
            assert(rows.take(self.todos.len() as int) =~= rows);
        }
        found
    }

    fn todo_of(&self, id: i64, owner: i64) -> (found: Option<Todo>)
        ensures
            match found {
                Some(todo) => first_of(self@.todos.filter(self@.is_todo_of(id, owner))) == Some(
                    todo@,
                ),
                None => first_of(self@.todos.filter(self@.is_todo_of(id, owner))) is None,
            },
    {
        let ghost rows = todo_views(self.todos@);
        let ghost keep = self@.is_todo_of(id, owner);
        let mut seen: usize = 0;
        while seen < self.todos.len()
            invariant
                seen <= self.todos.len(),
                rows == todo_views(self.todos@),
                keep == self@.is_todo_of(id, owner),
                forall|i: int| 0 <= i < seen ==> !keep(#[trigger] rows[i]),
            decreases self.todos.len() - seen,
        {
            let todo = &self.todos[seen];
            if todo.id == id && self.owns(owner, todo.work_list_id) {
                proof {
                    lemma_filter_first(rows, keep, seen as int);
                }
                return Some(todo.duplicate());
            }
            seen = seen + 1;
        }
        proof {
            lemma_filter_none(rows, keep);
        }
        None
    }

    fn insert_todo(&mut self, content: &String, work_list_id: i64, owner: i64) -> (reply: Reply)
        ensures
            reply@ == old(self)@.answer(
                QueryView::InsertTodo { content: content@, work_list_id, owner },
            ),
            final(self)@ == old(self)@.after(
                QueryView::InsertTodo { content: content@, work_list_id, owner },
            ),
    {
        if !self.owns(owner, work_list_id) {
            Reply::Inserted(None)
        } else if self.next_todo_id <= 0x7fff_ffff_ffff_ffff {
            let id = self.next_todo_id as i64;
            self.todos.push(Todo::new(id, content.clone(), false, work_list_id));
            self.next_todo_id = self.next_todo_id + 1;
            assert(todo_views(self.todos@) =~= todo_views(old(self).todos@).push(
                TodoView { id, content: content@, completed: false, work_list_id },
            ));
            Reply::Inserted(Some(id))
        } else {
            Reply::Failed
        }
    }

    fn count_todos(&self, id: i64, work_list_id: i64) -> (count: u64)
        ensures
            count == affected(self@.todos.filter(is_todo(id, work_list_id)).len()),
    {
        let ghost rows = todo_views(self.todos@);
        let ghost keep = is_todo(id, work_list_id);
        let mut count: u64 = 0;
        let mut seen: usize = 0;
        proof {
            lemma_filter_nothing(rows, keep);
        }
        while seen < self.todos.len()
            invariant
                seen <= self.todos.len(),
                rows == todo_views(self.todos@),
                keep == is_todo(id, work_list_id),
                count == rows.take(seen as int).filter(keep).len(),
                count <= seen,
            decreases self.todos.len() - seen,
        {
            proof {
                lemma_filter_next(rows, keep, seen as int);
            }
            let todo = &self.todos[seen];
            if todo.id == id && todo.work_list_id == work_list_id {
                count = count + 1;
            }
            seen = seen + 1;
        }
        proof {
            assert(rows.take(self.todos.len() as int) =~= rows);
        }
        count
    }

    fn update_todo(&mut self, id: i64, work_list_id: i64, assignments: &Vec<Assignment>)
        ensures
            final(self)@ == old(self)@.after(
                QueryView::UpdateTodo {
                    id,
                    work_list_id,
                    assignments: assignment_views(assignments@),
                },
            ),
    {
        let ghost rows = todo_views(self.todos@);
        let ghost changes = assignment_views(assignments@);
        let ghost changed = |todo: TodoView|
            if todo.id == id && todo.work_list_id == work_list_id {
                apply_all(changes, todo)
            } else {
                todo
            };
        let mut updated: Vec<Todo> = Vec::new();
        let mut seen: usize = 0;
        while seen < self.todos.len()
            invariant
                seen <= self.todos.len(),
                *self == *old(self),
                rows == todo_views(self.todos@),
                changes == assignment_views(assignments@),
                updated.len() == seen,
                changed == (|todo: TodoView|
                    if todo.id == id && todo.work_list_id == work_list_id {
                        apply_all(changes, todo)
                    } else {
                        todo
                    }),
                forall|i: int| 0 <= i < seen ==> (#[trigger] updated@[i])@ == changed(rows[i]),
            decreases self.todos.len() - seen,
        {
            let mut todo = self.todos[seen].duplicate();
            if todo.id == id && todo.work_list_id == work_list_id {
                apply_assignments(&mut todo, assignments);
            }
            updated.push(todo);
            seen = seen + 1;
        }
        self.todos = updated;
        assert(todo_views(self.todos@) =~= rows.map_values(changed));
    }

    fn delete_todo(&mut self, id: i64, work_list_id: i64)
        ensures
            final(self)@ == old(self)@.after(QueryView::DeleteTodo { id, work_list_id }),
    {
        let ghost rows = todo_views(self.todos@);
        let ghost keep = is_other_todo(id, work_list_id);
        let mut kept: Vec<Todo> = Vec::new();
        let mut seen: usize = 0;
        proof {
            lemma_filter_nothing(rows, keep);
            assert(todo_views(kept@) =~= rows.take(0).filter(keep));
        }
        while seen < self.todos.len()
            invariant
                seen <= self.todos.len(),
                *self == *old(self),
                rows == todo_views(self.todos@),
                keep == is_other_todo(id, work_list_id),
                todo_views(kept@) == rows.take(seen as int).filter(keep),
            decreases self.todos.len() - seen,
        {
            proof {
                lemma_filter_next(rows, keep, seen as int);
            }
            let ghost before = todo_views(kept@);
            let todo = &self.todos[seen];
            if !(todo.id == id && todo.work_list_id == work_list_id) {
                kept.push(todo.duplicate());
                assert(todo_views(kept@) =~= before.push(rows[seen as int]));
            }
            seen = seen + 1;
        }
        proof {
            assert(rows.take(self.todos.len() as int) =~= rows);
        }
        self.todos = kept;
    }

    /// Answers a query and changes the tables as the query asks, both
    /// exactly as the ledger says.
    pub fn execute(&mut self, query: &Query) -> (reply: Reply)
        ensures
            reply@ == old(self)@.answer(query@),
            final(self)@ == old(self)@.after(query@),
            old(self)@.well_formed() ==> final(self)@.well_formed(),
    {
        proof {
            if self@.well_formed() {
                lemma_queries_keep_ids_unique(self@, query@);
            }
        }
        match query {
            Query::TokensByKey { key } => Reply::Tokens(self.tokens_by_key(key)),
            Query::ClientById { id } => Reply::Client(self.client_by_id(*id)),
            Query::InsertWorkList { name, owner } => self.insert_work_list(name, *owner),
            Query::WorkListsOf { owner } => Reply::WorkLists(self.rows_of(*owner)),
            Query::WorkListOf { id, owner } => Reply::WorkList(self.row_of(*id, *owner)),
            Query::RenameWorkList { id, owner, name } => {
                let count = self.count_lists(*id, *owner);
                self.rename(*id, *owner, name);
                Reply::Affected(count)
            },
            Query::DeleteWorkList { id, owner } => {
                let count = self.count_lists(*id, *owner);
                self.delete_list(*id, *owner);
                Reply::Affected(count)
            },
            Query::TodosIn { work_list_ids } => {
                if work_list_ids.len() > 0 {
                    Reply::Todos(self.todos_in(work_list_ids))
                } else {
                    Reply::Failed
                }
            },
            Query::TodoOf { id, owner } => Reply::Todo(self.todo_of(*id, *owner)),
            Query::OwnsWorkList { work_list_id, owner } => Reply::Flag(
                self.owns(*owner, *work_list_id),
            ),
            Query::InsertTodo { content, work_list_id, owner } => self.insert_todo(
                content,
                *work_list_id,
                *owner,
            ),
            Query::UpdateTodo { id, work_list_id, assignments } => {
                if assignments.len() > 0 {
                    let count = self.count_todos(*id, *work_list_id);
                    self.update_todo(*id, *work_list_id, assignments);
                    Reply::Affected(count)
                } else {
                    assert(self@.after(query@).todos =~= self@.todos);
                    Reply::Failed
                }
            },
            Query::DeleteTodo { id, work_list_id } => {
                let count = self.count_todos(*id, *work_list_id);
                self.delete_todo(*id, *work_list_id);
                Reply::Affected(count)
            },
        }
    }
}

/// Whether the run holds the number.
pub fn holds(numbers: &Vec<i64>, number: i64) -> (found: bool)
    ensures
        found == numbers@.contains(number),
{
    let mut seen: usize = 0;
    while seen < numbers.len()
        invariant
            seen <= numbers.len(),
            forall|i: int| 0 <= i < seen ==> numbers@[i] != number,
        decreases numbers.len() - seen,
    {
        if numbers[seen] == number {
            return true;
        }
        seen = seen + 1;
    }
    false
}

} // verus!
