use vstd::prelude::*;
use vstd::string::*;
use crate::error::WebError;
use crate::forms::work_list::{CreateWorkList, UpdateWorkList};
use crate::model::todo::{Todo, TodoView, todo_views};
use crate::storage::query::{Query, QueryView};
use crate::storage::reply::{Reply, ReplyView, Step, WorkListRow, WorkListRowView, row_ids, row_views};
use crate::storage::rows::{lemma_filter_next, lemma_filter_nothing};
use crate::web_app::client::Client;

verus! {

/// A named collection of todos, owned by exactly one tenant.
#[derive(Debug)]
pub struct WorkList {
    id: i64,
    name: String,
    todos: Vec<Todo>,
}

/// A work-list as plain values.
pub struct WorkListView {
    pub id: i64,
    pub name: Seq<char>,
    pub todos: Seq<TodoView>,
}

impl View for WorkList {
    type V = WorkListView;

    closed spec fn view(&self) -> WorkListView {
        WorkListView { id: self.id, name: self.name@, todos: todo_views(self.todos@) }
    }
}

/// The plain values of a run of work-lists, in the same order.
pub open spec fn work_list_views(lists: Seq<WorkList>) -> Seq<WorkListView> {
    lists.map_values(|list: WorkList| list@)
}

impl WorkList {
    pub fn new(id: i64, name: String, todos: Vec<Todo>) -> (list: Self)
        ensures
            list@ == (WorkListView { id, name: name@, todos: todo_views(todos@) }),
    {
        Self { id, name, todos }
    }

    pub fn id(&self) -> (id: i64)
        ensures
            id == self@.id,
    {
        self.id
    }

    pub fn name(&self) -> (name: &String)
        ensures
            name@ == self@.name,
    {
        &self.name
    }

    pub fn todos(&self) -> (todos: &Vec<Todo>)
        ensures
            todo_views(todos@) == self@.todos,
    {
        &self.todos
    }
}

/// The todos of the run that belong to the work-list, in the order of the
/// run.
pub open spec fn todos_of(todos: Seq<TodoView>, work_list_id: i64) -> Seq<TodoView> {
    todos.filter(|todo: TodoView| todo.work_list_id == work_list_id)
}

/// One work-list per row, in the order of the rows, each with the todos of
/// the run that belong to it.
pub open spec fn grouped(rows: Seq<WorkListRowView>, todos: Seq<TodoView>) -> Seq<WorkListView> {
    rows.map_values(
        |row: WorkListRowView|
            WorkListView { id: row.id, name: row.name, todos: todos_of(todos, row.id) },
    )
}

/// Picks from the run the todos that belong to the work-list.
pub fn select_todos(todos: &Vec<Todo>, work_list_id: i64) -> (selected: Vec<Todo>)
    ensures
        todo_views(selected@) == todos_of(todo_views(todos@), work_list_id),
{
    let ghost all = todo_views(todos@);
    let ghost belongs = |todo: TodoView| todo.work_list_id == work_list_id;
    let mut selected: Vec<Todo> = Vec::new();
    let mut seen: usize = 0;
    proof {
        lemma_filter_nothing(all, belongs);
        assert(todo_views(selected@) =~= all.take(0).filter(belongs));
    }
    while seen < todos.len()
        invariant
            seen <= todos.len(),
            all == todo_views(todos@),
            belongs == (|todo: TodoView| todo.work_list_id == work_list_id),
            todo_views(selected@) == all.take(seen as int).filter(belongs),
        decreases todos.len() - seen,
    {
        let ghost before = todo_views(selected@);
        proof {
            lemma_filter_next(all, belongs, seen as int);
        }
        if todos[seen].work_list_id == work_list_id {
            selected.push(todos[seen].duplicate());
            assert(todo_views(selected@) =~= before.push(all[seen as int]));
        }
        seen = seen + 1;
    }
    proof {
        assert(all.take(todos.len() as int) =~= all);
    }
    selected
}

/// Builds one work-list per row, each with its own todos out of the run.
pub fn group_todos(rows: Vec<WorkListRow>, todos: &Vec<Todo>) -> (lists: Vec<WorkList>)
    ensures
        work_list_views(lists@) == grouped(row_views(rows@), todo_views(todos@)),
{
    let ghost expected = grouped(row_views(rows@), todo_views(todos@));
    let mut lists: Vec<WorkList> = Vec::new();
    let mut done: usize = 0;
    while done < rows.len()
        invariant
            done <= rows.len(),
            lists.len() == done,
            expected == grouped(row_views(rows@), todo_views(todos@)),
            forall|i: int| 0 <= i < done ==> (#[trigger] lists@[i])@ == expected[i],
        decreases rows.len() - done,
    {
        let row = &rows[done];
        let own = select_todos(todos, row.id);
        lists.push(WorkList::new(row.id, row.name.clone(), own));
        done = done + 1;
    }
    assert(work_list_views(lists@) =~= expected);
    lists
}

/// The ids of the rows, in the same order.
pub fn ids_of(rows: &Vec<WorkListRow>) -> (ids: Vec<i64>)
    ensures
        ids@ == row_ids(row_views(rows@)),
{
    let mut ids: Vec<i64> = Vec::new();
    let mut done: usize = 0;
    while done < rows.len()
        invariant
            done <= rows.len(),
            ids.len() == done,
            forall|i: int| 0 <= i < done ==> #[trigger] ids@[i] == rows@[i].id,
        decreases rows.len() - done,
    {
        ids.push(rows[done].id);
        done = done + 1;
    }
    assert(ids@ =~= row_ids(row_views(rows@)));
    ids
}

/// A creation that waits for storage to insert the row.
#[derive(Debug)]
pub struct PendingCreate {
    pub name: String,
}

/// Where a listing stands while it waits for storage.
#[derive(Debug)]
pub enum PendingList {
    /// The tenant's work-list rows were asked for.
    Rows,
    /// The todos of these rows were asked for.
    Todos { rows: Vec<WorkListRow> },
}

/// Where a lookup stands while it waits for storage.
#[derive(Debug)]
pub enum PendingFind {
    /// The row was asked for, by id and owner.
    Row,
    /// The todos of the row were asked for.
    Todos { row: WorkListRow },
}

/// A renaming that waits for storage to report how many rows it changed.
#[derive(Debug)]
pub struct PendingUpdate {
    pub name: String,
}

/// A deletion that waits for storage to report how many rows it removed.
#[derive(Debug)]
pub struct PendingDelete {}

impl WorkList {
    /// Starts to create a work-list. Its owner is the authenticated tenant,
    /// never a value from the payload.
    pub fn begin_create(form: CreateWorkList, client: &Client) -> (step: Step<
        PendingCreate,
        WorkList,
    >)
        ensures
            step matches Step::Ask(query, pending) && query@ == (QueryView::InsertWorkList {
                name: form.name@,
                owner: client@.id,
            }) && pending.name@ == form.name@,
    {
        Step::Ask(
            Query::InsertWorkList { name: form.name.clone(), owner: client.id() },
            PendingCreate { name: form.name },
        )
    }

    /// Starts to list the work-lists of a tenant.
    pub fn begin_list(client: &Client) -> (step: Step<PendingList, Vec<WorkList>>)
        ensures
            step matches Step::Ask(query, pending) && query@ == (QueryView::WorkListsOf {
                owner: client@.id,
            }) && pending is Rows,
    {
        Step::Ask(Query::WorkListsOf { owner: client.id() }, PendingList::Rows)
    }

    /// Starts to look a work-list up by its id and its owner.
    pub fn begin_find(id: i64, client: &Client) -> (step: Step<PendingFind, WorkList>)
        ensures
            step matches Step::Ask(query, pending) && query@ == (QueryView::WorkListOf {
                id,
                owner: client@.id,
            }) && pending is Row,
    {
        Step::Ask(Query::WorkListOf { id, owner: client.id() }, PendingFind::Row)
    }

    /// Starts to rename the work-list on behalf of a tenant.
    pub fn begin_update(&self, client: &Client, form: UpdateWorkList) -> (step: Step<
        PendingUpdate,
        (),
    >)
        ensures
            step matches Step::Ask(query, pending) && query@ == (QueryView::RenameWorkList {
                id: self@.id,
                owner: client@.id,
                name: form.name@,
            }) && pending.name@ == form.name@,
    {
        Step::Ask(
            Query::RenameWorkList { id: self.id, owner: client.id(), name: form.name.clone() },
            PendingUpdate { name: form.name },
        )
    }

    /// Starts to delete the work-list on behalf of a tenant. Its todos are
    /// not removed with it.
    pub fn begin_delete(&self, client: &Client) -> (step: Step<PendingDelete, ()>)
        ensures
            step matches Step::Ask(query, pending) && query@ == (QueryView::DeleteWorkList {
                id: self@.id,
                owner: client@.id,
            }),
    {
        Step::Ask(Query::DeleteWorkList { id: self.id, owner: client.id() }, PendingDelete {})
    }
}

impl PendingCreate {
    /// Takes the answer of storage: the new work-list has the id storage
    /// gave it and no todos.
    pub fn resume(self, reply: Reply) -> (step: Step<PendingCreate, WorkList>)
        ensures
            match reply@ {
                ReplyView::Inserted(Some(id)) => step matches Step::Done(Ok(list)) && list@ == (
                WorkListView { id, name: self.name@, todos: Seq::empty() }),
                _ => step matches Step::Done(Err(error)) && error is StorageFailure,
            },
    {
        match reply {
            Reply::Inserted(Some(id)) => {
                let list = WorkList::new(id, self.name, Vec::new());
                assert(list@.todos =~= Seq::<TodoView>::empty());
                Step::Done(Ok(list))
            },
            _ => Step::Done(Err(WebError::StorageFailure)),
        }
    }
}

impl PendingList {
    /// Takes the answer of storage. A tenant without work-lists gets the
    /// empty listing at once: the todos of no work-list are never asked
    /// for.
    pub fn resume(self, reply: Reply) -> (step: Step<PendingList, Vec<WorkList>>)
        ensures
            step matches Step::Ask(query, _) ==> query@.well_formed(),
            match (self, reply@) {
                (PendingList::Rows, ReplyView::WorkLists(rows)) => if rows.len() == 0 {
                    step matches Step::Done(Ok(lists)) && lists@.len() == 0
                } else {
                    step matches Step::Ask(query, pending) && query@ == (QueryView::TodosIn {
                        work_list_ids: row_ids(rows),
                    }) && (pending matches PendingList::Todos { rows: kept } && row_views(kept@)
                        == rows)
                },
                (PendingList::Todos { rows }, ReplyView::Todos(todos)) => step matches Step::Done(
                    Ok(lists),
                ) && work_list_views(lists@) == grouped(row_views(rows@), todos),
                _ => step matches Step::Done(Err(error)) && error is StorageFailure,
            },
    {
        match self {
            PendingList::Rows => match reply {
                Reply::WorkLists(rows) => {
                    if rows.len() == 0 {
                        Step::Done(Ok(Vec::new()))
                    } else {
                        let ids = ids_of(&rows);
                        Step::Ask(Query::TodosIn { work_list_ids: ids }, PendingList::Todos { rows })
                    }
                },
                _ => Step::Done(Err(WebError::StorageFailure)),
            },
            PendingList::Todos { rows } => match reply {
                Reply::Todos(todos) => Step::Done(Ok(group_todos(rows, &todos))),
                _ => Step::Done(Err(WebError::StorageFailure)),
            },
        }
    }
}

impl PendingFind {
    /// Takes the answer of storage. No row means not found, whether the id
    /// is unknown or the work-list is another tenant's.
    pub fn resume(self, reply: Reply) -> (step: Step<PendingFind, WorkList>)
        ensures
            step matches Step::Ask(query, _) ==> query@.well_formed(),
            match (self, reply@) {
                (PendingFind::Row, ReplyView::WorkList(Some(row))) => step matches Step::Ask(
                    query,
                    pending,
                ) && query@ == (QueryView::TodosIn { work_list_ids: seq![row.id] })
                    && (pending matches PendingFind::Todos { row: kept } && kept@ == row),
                (PendingFind::Row, ReplyView::WorkList(None)) => step matches Step::Done(
                    Err(error),
                ) && error is NotFound,
                (PendingFind::Todos { row }, ReplyView::Todos(todos)) => step matches Step::Done(
                    Ok(list),
                ) && list@ == (WorkListView { id: row.id, name: row.name@, todos }),
                _ => step matches Step::Done(Err(error)) && error is StorageFailure,
            },
    {
        match self {
            PendingFind::Row => match reply {
                Reply::WorkList(Some(row)) => {
                    let mut ids: Vec<i64> = Vec::new();
                    ids.push(row.id);
                    assert(ids@ =~= seq![row.id]);
                    Step::Ask(Query::TodosIn { work_list_ids: ids }, PendingFind::Todos { row })
                },
                Reply::WorkList(None) => Step::Done(Err(WebError::NotFound)),
                _ => Step::Done(Err(WebError::StorageFailure)),
            },
            PendingFind::Todos { row } => match reply {
                Reply::Todos(todos) => Step::Done(Ok(WorkList::new(row.id, row.name, todos))),
                _ => Step::Done(Err(WebError::StorageFailure)),
            },
        }
    }
}

impl PendingUpdate {
    /// Takes the answer of storage. If a row was changed the work-list takes
    /// the new name; if none was, it is reported as not found and stays as
    /// it is.
    pub fn resume(self, list: &mut WorkList, reply: Reply) -> (step: Step<PendingUpdate, ()>)
        ensures
            match reply@ {
                ReplyView::Affected(count) if count > 0 => step matches Step::Done(Ok(_))
                    && final(list)@ == (WorkListView { name: self.name@, ..old(list)@ }),
                ReplyView::Affected(_) => step matches Step::Done(Err(error)) && error is NotFound
                    && final(list)@ == old(list)@,
                _ => step matches Step::Done(Err(error)) && error is StorageFailure
                    && final(list)@ == old(list)@,
            },
    {
        match reply {
            Reply::Affected(count) => {
                if count > 0 {
                    list.name = self.name;
                    Step::Done(Ok(()))
                } else {
                    Step::Done(Err(WebError::NotFound))
                }
            },
            _ => Step::Done(Err(WebError::StorageFailure)),
        }
    }
}

impl PendingDelete {
    /// Takes the answer of storage. If no row was removed the work-list is
    /// reported as not found.
    pub fn resume(self, reply: Reply) -> (step: Step<PendingDelete, ()>)
        ensures
            match reply@ {
                ReplyView::Affected(count) if count > 0 => step matches Step::Done(Ok(_)),
                ReplyView::Affected(_) => step matches Step::Done(Err(error)) && error is NotFound,
                _ => step matches Step::Done(Err(error)) && error is StorageFailure,
            },
    {
        match reply {
            Reply::Affected(count) => {
                if count > 0 {
                    Step::Done(Ok(()))
                } else {
                    Step::Done(Err(WebError::NotFound))
                }
            },
            _ => Step::Done(Err(WebError::StorageFailure)),
        }
    }
}

} // verus!
