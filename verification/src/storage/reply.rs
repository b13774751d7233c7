use vstd::prelude::*;
use crate::error::WebError;
use crate::model::todo::{Todo, TodoView, todo_views};
use crate::storage::query::Query;
use crate::web_app::client::{Client, ClientView};
use crate::web_app::token::{Token, TokenView, token_views};

verus! {

/// A row of the work-list table as a tenant-scoped read returns it.
#[derive(Debug)]
pub struct WorkListRow {
    pub id: i64,
    pub name: String,
}

/// A work-list row as plain values.
pub struct WorkListRowView {
    pub id: i64,
    pub name: Seq<char>,
}

impl View for WorkListRow {
    type V = WorkListRowView;

    open spec fn view(&self) -> WorkListRowView {
        WorkListRowView { id: self.id, name: self.name@ }
    }
}

/// The plain values of a run of rows, in the same order.
pub open spec fn row_views(rows: Seq<WorkListRow>) -> Seq<WorkListRowView> {
    rows.map_values(|row: WorkListRow| row@)
}

/// The ids of a run of rows, in the same order.
pub open spec fn row_ids(rows: Seq<WorkListRowView>) -> Seq<i64> {
    rows.map_values(|row: WorkListRowView| row.id)
}

/// What storage answers to a query.
#[derive(Debug)]
pub enum Reply {
    /// The token rows that matched.
    Tokens(Vec<Token>),
    /// The tenant row, if there is one.
    Client(Option<Client>),
    /// The work-list rows that matched.
    WorkLists(Vec<WorkListRow>),
    /// The work-list row, if one matched.
    WorkList(Option<WorkListRow>),
    /// The todo rows that matched.
    Todos(Vec<Todo>),
    /// The todo row, if one matched.
    Todo(Option<Todo>),
    /// The answer to a yes-or-no question.
    Flag(bool),
    /// The id storage gave the new row, or nothing if no row was inserted.
    Inserted(Option<i64>),
    /// The number of rows that a statement changed or removed.
    Affected(u64),
    /// Storage failed.
    Failed,
}

/// An answer of storage as plain data.
pub enum ReplyView {
    Tokens(Seq<TokenView>),
    Client(Option<ClientView>),
    WorkLists(Seq<WorkListRowView>),
    WorkList(Option<WorkListRowView>),
    Todos(Seq<TodoView>),
    Todo(Option<TodoView>),
    Flag(bool),
    Inserted(Option<i64>),
    Affected(u64),
    Failed,
}

impl View for Reply {
    type V = ReplyView;

    open spec fn view(&self) -> ReplyView {
        match self {
            Reply::Tokens(tokens) => ReplyView::Tokens(token_views(tokens@)),
            Reply::Client(client) => ReplyView::Client(
                match client {
                    Some(client) => Some(client@),
                    None => None,
                },
            ),
            Reply::WorkLists(rows) => ReplyView::WorkLists(row_views(rows@)),
            Reply::WorkList(row) => ReplyView::WorkList(
                match row {
                    Some(row) => Some(row@),
                    None => None,
                },
            ),
            Reply::Todos(todos) => ReplyView::Todos(todo_views(todos@)),
            Reply::Todo(todo) => ReplyView::Todo(
                match todo {
                    Some(todo) => Some(todo@),
                    None => None,
                },
            ),
            Reply::Flag(flag) => ReplyView::Flag(*flag),
            Reply::Inserted(id) => ReplyView::Inserted(*id),
            Reply::Affected(count) => ReplyView::Affected(*count),
            Reply::Failed => ReplyView::Failed,
        }
    }
}

/// The shapes an answer of storage can have.
#[derive(Debug, Clone, Copy, PartialEq, Eq, Structural)]
pub enum ReplyKind {
    Tokens,
    Client,
    WorkLists,
    WorkList,
    Todos,
    Todo,
    Flag,
    Inserted,
    Affected,
    Failed,
}

impl ReplyView {
    /// The shape of the answer.
    pub open spec fn kind(self) -> ReplyKind {
        match self {
            ReplyView::Tokens(_) => ReplyKind::Tokens,
            ReplyView::Client(_) => ReplyKind::Client,
            ReplyView::WorkLists(_) => ReplyKind::WorkLists,
            ReplyView::WorkList(_) => ReplyKind::WorkList,
            ReplyView::Todos(_) => ReplyKind::Todos,
            ReplyView::Todo(_) => ReplyKind::Todo,
            ReplyView::Flag(_) => ReplyKind::Flag,
            ReplyView::Inserted(_) => ReplyKind::Inserted,
            ReplyView::Affected(_) => ReplyKind::Affected,
            ReplyView::Failed => ReplyKind::Failed,
        }
    }
}

impl Reply {
    /// The shape of the answer.
    pub fn kind(&self) -> (kind: ReplyKind)
        ensures
            kind == self@.kind(),
    {
        match self {
            Reply::Tokens(_) => ReplyKind::Tokens,
            Reply::Client(_) => ReplyKind::Client,
            Reply::WorkLists(_) => ReplyKind::WorkLists,
            Reply::WorkList(_) => ReplyKind::WorkList,
            Reply::Todos(_) => ReplyKind::Todos,
            Reply::Todo(_) => ReplyKind::Todo,
            Reply::Flag(_) => ReplyKind::Flag,
            Reply::Inserted(_) => ReplyKind::Inserted,
            Reply::Affected(_) => ReplyKind::Affected,
            Reply::Failed => ReplyKind::Failed,
        }
    }
}

/// Where an operation stands after it was handed an answer: it either asks
/// storage a further query and waits in a new state, or it is done.
pub enum Step<S, T> {
    Ask(Query, S),
    Done(Result<T, WebError>),
}

} // verus!
