use vstd::prelude::*;
use vstd::string::*;
use crate::patch::{Assignment, AssignmentView, assignment_views, bound_values, set_clause, set_clause_text};
use crate::storage::reply::ReplyKind;
use crate::storage::statement::{
    integer_values,
    placeholder_list,
    placeholders,
    Statement,
    StatementView,
    Value,
    ValueView,
    value_views,
};

verus! {

/// What an operation can ask of storage. Every query but the token lookup
/// names the tenant it is issued for, or a work-list that was checked
/// against that tenant.
#[derive(Debug)]
pub enum Query {
    /// The token rows whose key is exactly `key`.
    TokensByKey { key: String },
    /// The tenant row with this id.
    ClientById { id: i64 },
    /// Insert a work-list owned by `owner`.
    InsertWorkList { name: String, owner: i64 },
    /// The work-list rows owned by `owner`.
    WorkListsOf { owner: i64 },
    /// The work-list row with this id, if `owner` owns it.
    WorkListOf { id: i64, owner: i64 },
    /// Rename the work-list with this id, if `owner` owns it.
    RenameWorkList { id: i64, owner: i64, name: String },
    /// Remove the work-list with this id, if `owner` owns it.
    DeleteWorkList { id: i64, owner: i64 },
    /// The todo rows that belong to one of the work-lists.
    TodosIn { work_list_ids: Vec<i64> },
    /// The todo row with this id, if `owner` owns its work-list.
    TodoOf { id: i64, owner: i64 },
    /// Whether `owner` owns a work-list with this id.
    OwnsWorkList { work_list_id: i64, owner: i64 },
    /// Insert a todo under the work-list, if `owner` owns it.
    InsertTodo { content: String, work_list_id: i64, owner: i64 },
    /// Apply the assignments to the todo with this id in this work-list.
    UpdateTodo { id: i64, work_list_id: i64, assignments: Vec<Assignment> },
    /// Remove the todo with this id in this work-list.
    DeleteTodo { id: i64, work_list_id: i64 },
}

/// A query as plain data.
pub enum QueryView {
    TokensByKey { key: Seq<char> },
    ClientById { id: i64 },
    InsertWorkList { name: Seq<char>, owner: i64 },
    WorkListsOf { owner: i64 },
    WorkListOf { id: i64, owner: i64 },
    RenameWorkList { id: i64, owner: i64, name: Seq<char> },
    DeleteWorkList { id: i64, owner: i64 },
    TodosIn { work_list_ids: Seq<i64> },
    TodoOf { id: i64, owner: i64 },
    OwnsWorkList { work_list_id: i64, owner: i64 },
    InsertTodo { content: Seq<char>, work_list_id: i64, owner: i64 },
    UpdateTodo { id: i64, work_list_id: i64, assignments: Seq<AssignmentView> },
    DeleteTodo { id: i64, work_list_id: i64 },
}

impl View for Query {
    type V = QueryView;

    open spec fn view(&self) -> QueryView {
        match self {
            Query::TokensByKey { key } => QueryView::TokensByKey { key: key@ },
            Query::ClientById { id } => QueryView::ClientById { id: *id },
            Query::InsertWorkList { name, owner } => QueryView::InsertWorkList {
                name: name@,
                owner: *owner,
            },
            Query::WorkListsOf { owner } => QueryView::WorkListsOf { owner: *owner },
            Query::WorkListOf { id, owner } => QueryView::WorkListOf { id: *id, owner: *owner },
            Query::RenameWorkList { id, owner, name } => QueryView::RenameWorkList {
                id: *id,
                owner: *owner,
                name: name@,
            },
            Query::DeleteWorkList { id, owner } => QueryView::DeleteWorkList {
                id: *id,
                owner: *owner,
            },
            Query::TodosIn { work_list_ids } => QueryView::TodosIn {
                work_list_ids: work_list_ids@,
            },
            Query::TodoOf { id, owner } => QueryView::TodoOf { id: *id, owner: *owner },
            Query::OwnsWorkList { work_list_id, owner } => QueryView::OwnsWorkList {
                work_list_id: *work_list_id,
                owner: *owner,
            },
            Query::InsertTodo { content, work_list_id, owner } => QueryView::InsertTodo {
                content: content@,
                work_list_id: *work_list_id,
                owner: *owner,
            },
            Query::UpdateTodo { id, work_list_id, assignments } => QueryView::UpdateTodo {
                id: *id,
                work_list_id: *work_list_id,
                assignments: assignment_views(assignments@),
            },
            Query::DeleteTodo { id, work_list_id } => QueryView::DeleteTodo {
                id: *id,
                work_list_id: *work_list_id,
            },
        }
    }
}

impl QueryView {
    /// The shape of the answer that the query asks for.
    pub open spec fn expects(self) -> ReplyKind {
        match self {
            QueryView::TokensByKey { .. } => ReplyKind::Tokens,
            QueryView::ClientById { .. } => ReplyKind::Client,
            QueryView::InsertWorkList { .. } => ReplyKind::Inserted,
            QueryView::WorkListsOf { .. } => ReplyKind::WorkLists,
            QueryView::WorkListOf { .. } => ReplyKind::WorkList,
            QueryView::RenameWorkList { .. } => ReplyKind::Affected,
            QueryView::DeleteWorkList { .. } => ReplyKind::Affected,
            QueryView::TodosIn { .. } => ReplyKind::Todos,
            QueryView::TodoOf { .. } => ReplyKind::Todo,
            QueryView::OwnsWorkList { .. } => ReplyKind::Flag,
            QueryView::InsertTodo { .. } => ReplyKind::Inserted,
            QueryView::UpdateTodo { .. } => ReplyKind::Affected,
            QueryView::DeleteTodo { .. } => ReplyKind::Affected,
        }
    }

    /// A query can be written as a statement unless it is a membership test
    /// against no work-list at all, or an update that assigns nothing.
    pub open spec fn well_formed(self) -> bool {
        match self {
            QueryView::TodosIn { work_list_ids } => work_list_ids.len() > 0,
            QueryView::UpdateTodo { assignments, .. } => assignments.len() > 0,
            _ => true,
        }
    }

    /// The text of the statement.
    pub open spec fn sql(self) -> Seq<char> {
        match self {
            QueryView::TokensByKey { .. } => "SELECT key, client_id, valid_to FROM client_api_keys WHERE key = ?"@,
            QueryView::ClientById { .. } => "SELECT id, display_name FROM clients WHERE id = ?"@,
            QueryView::InsertWorkList { .. } => "INSERT INTO work_lists (name, client_id) VALUES (?, ?)"@,
            QueryView::WorkListsOf { .. } => "SELECT id, name FROM work_lists WHERE client_id = ?"@,
            QueryView::WorkListOf { .. } => "SELECT id, name FROM work_lists WHERE id = ? AND client_id = ?"@,
            QueryView::RenameWorkList { .. } => "UPDATE work_lists SET name = ? WHERE id = ? AND client_id = ?"@,
            QueryView::DeleteWorkList { .. } => "DELETE FROM work_lists WHERE id = ? AND client_id = ?"@,
            QueryView::TodosIn { work_list_ids } =>
                "SELECT id, content, completed, work_list_id FROM todos WHERE work_list_id IN ("@
                + placeholder_list(work_list_ids.len()) + ")"@,
            QueryView::TodoOf { .. } => "SELECT todos.id, todos.content, todos.completed, todos.work_list_id FROM todos JOIN work_lists ON work_lists.id = todos.work_list_id WHERE todos.id = ? AND work_lists.client_id = ?"@,
            QueryView::OwnsWorkList { .. } => "SELECT ? IN (SELECT id FROM work_lists WHERE client_id = ?)"@,
            QueryView::InsertTodo { .. } => "INSERT INTO todos (content, completed, work_list_id) SELECT ?, false, id FROM work_lists WHERE id = ? AND client_id = ?"@,
            QueryView::UpdateTodo { assignments, .. } => "UPDATE todos SET "@ + set_clause_text(
                assignments,
            ) + " WHERE id = ? AND work_list_id = ?"@,
            QueryView::DeleteTodo { .. } => "DELETE FROM todos WHERE id = ? AND work_list_id = ?"@,
        }
    }

    /// The values for the placeholders of the statement, in the order in
    /// which the placeholders occur in its text.
    pub open spec fn params(self) -> Seq<ValueView> {
        match self {
            QueryView::TokensByKey { key } => seq![ValueView::Text(key)],
            QueryView::ClientById { id } => seq![ValueView::Integer(id)],
            QueryView::InsertWorkList { name, owner } => seq![
                ValueView::Text(name),
                ValueView::Integer(owner),
            ],
            QueryView::WorkListsOf { owner } => seq![ValueView::Integer(owner)],
            QueryView::WorkListOf { id, owner } => seq![
                ValueView::Integer(id),
                ValueView::Integer(owner),
            ],
            QueryView::RenameWorkList { id, owner, name } => seq![
                ValueView::Text(name),
                ValueView::Integer(id),
                ValueView::Integer(owner),
            ],
            QueryView::DeleteWorkList { id, owner } => seq![
                ValueView::Integer(id),
                ValueView::Integer(owner),
            ],
            QueryView::TodosIn { work_list_ids } => integer_values(work_list_ids),
            QueryView::TodoOf { id, owner } => seq![
                ValueView::Integer(id),
                ValueView::Integer(owner),
            ],
            QueryView::OwnsWorkList { work_list_id, owner } => seq![
                ValueView::Integer(work_list_id),
                ValueView::Integer(owner),
            ],
            QueryView::InsertTodo { content, work_list_id, owner } => seq![
                ValueView::Text(content),
                ValueView::Integer(work_list_id),
                ValueView::Integer(owner),
            ],
            QueryView::UpdateTodo { id, work_list_id, assignments } => bound_values(assignments)
                + seq![ValueView::Integer(id), ValueView::Integer(work_list_id)],
            QueryView::DeleteTodo { id, work_list_id } => seq![
                ValueView::Integer(id),
                ValueView::Integer(work_list_id),
            ],
        }
    }

    /// The statement that puts the query to a relational store.
    pub open spec fn statement(self) -> StatementView {
        StatementView { sql: self.sql(), params: self.params() }
    }
}

/// The integers of the run, each as a value to bind, in the same order.
pub fn integer_params(numbers: &Vec<i64>) -> (params: Vec<Value>)
    ensures
        value_views(params@) == integer_values(numbers@),
{
    let mut params: Vec<Value> = Vec::new();
    let mut done: usize = 0;
    while done < numbers.len()
        invariant
            done <= numbers.len(),
            params.len() == done,
            forall|i: int| 0 <= i < done ==> (#[trigger] params@[i])@ == ValueView::Integer(numbers@[i]),
        decreases numbers.len() - done,
    {
        params.push(Value::Integer(numbers[done]));
        done = done + 1;
    }
    assert(value_views(params@) =~= integer_values(numbers@));
    params
}

/// The values of the assignments, each to be bound to the placeholder of
/// its own clause, in the same order.
pub fn bindings(assignments: &Vec<Assignment>) -> (params: Vec<Value>)
    ensures
        value_views(params@) == bound_values(assignment_views(assignments@)),
{
    let mut params: Vec<Value> = Vec::new();
    let mut done: usize = 0;
    while done < assignments.len()
        invariant
            done <= assignments.len(),
            params.len() == done,
            forall|i: int| 0 <= i < done ==> (#[trigger] params@[i])@ == assignments@[i]@.value(),
        decreases assignments.len() - done,
    {
        params.push(assignments[done].value());
        done = done + 1;
    }
    assert(value_views(params@) =~= bound_values(assignment_views(assignments@)));
    params
}

impl Query {
    /// The shape of the answer that the query asks for: rows are read for
    /// the first six, a statement is run for the others.
    pub fn expects(&self) -> (kind: ReplyKind)
        ensures
            kind == self@.expects(),
    {
        match self {
            Query::TokensByKey { .. } => ReplyKind::Tokens,
            Query::ClientById { .. } => ReplyKind::Client,
            Query::InsertWorkList { .. } => ReplyKind::Inserted,
            Query::WorkListsOf { .. } => ReplyKind::WorkLists,
            Query::WorkListOf { .. } => ReplyKind::WorkList,
            Query::RenameWorkList { .. } => ReplyKind::Affected,
            Query::DeleteWorkList { .. } => ReplyKind::Affected,
            Query::TodosIn { .. } => ReplyKind::Todos,
            Query::TodoOf { .. } => ReplyKind::Todo,
            Query::OwnsWorkList { .. } => ReplyKind::Flag,
            Query::InsertTodo { .. } => ReplyKind::Inserted,
            Query::UpdateTodo { .. } => ReplyKind::Affected,
            Query::DeleteTodo { .. } => ReplyKind::Affected,
        }
    }

    /// Whether the query can be written as a statement.
    pub fn is_well_formed(&self) -> (well_formed: bool)
        ensures
            well_formed == self@.well_formed(),
    {
        match self {
            Query::TodosIn { work_list_ids } => work_list_ids.len() > 0,
            Query::UpdateTodo { assignments, .. } => assignments.len() > 0,
            _ => true,
        }
    }

    /// Writes the text of the statement.
    pub fn sql(&self) -> (text: String)
        ensures
            text@ == self@.sql(),
    {
        match self {
            Query::TokensByKey { .. } => String::from_str(
                "SELECT key, client_id, valid_to FROM client_api_keys WHERE key = ?",
            ),
            Query::ClientById { .. } => String::from_str(
                "SELECT id, display_name FROM clients WHERE id = ?",
            ),
            Query::InsertWorkList { .. } => String::from_str(
                "INSERT INTO work_lists (name, client_id) VALUES (?, ?)",
            ),
            Query::WorkListsOf { .. } => String::from_str(
                "SELECT id, name FROM work_lists WHERE client_id = ?",
            ),
            Query::WorkListOf { .. } => String::from_str(
                "SELECT id, name FROM work_lists WHERE id = ? AND client_id = ?",
            ),
            Query::RenameWorkList { .. } => String::from_str(
                "UPDATE work_lists SET name = ? WHERE id = ? AND client_id = ?",
            ),
            Query::DeleteWorkList { .. } => String::from_str(
                "DELETE FROM work_lists WHERE id = ? AND client_id = ?",
            ),
            Query::TodosIn { work_list_ids } => {
                let mut text = String::from_str(
                    "SELECT id, content, completed, work_list_id FROM todos WHERE work_list_id IN (",
                );
                let marks = placeholders(work_list_ids.len());
                text.append(marks.as_str());
                text.append(")");
                text
            },
            Query::TodoOf { .. } => String::from_str(
                "SELECT todos.id, todos.content, todos.completed, todos.work_list_id FROM todos JOIN work_lists ON work_lists.id = todos.work_list_id WHERE todos.id = ? AND work_lists.client_id = ?",
            ),
            Query::OwnsWorkList { .. } => String::from_str(
                "SELECT ? IN (SELECT id FROM work_lists WHERE client_id = ?)",
            ),
            Query::InsertTodo { .. } => String::from_str(
                "INSERT INTO todos (content, completed, work_list_id) SELECT ?, false, id FROM work_lists WHERE id = ? AND client_id = ?",
            ),
            Query::UpdateTodo { assignments, .. } => {
                let mut text = String::from_str("UPDATE todos SET ");
                let clause = set_clause(assignments);
                text.append(clause.as_str());
                text.append(" WHERE id = ? AND work_list_id = ?");
                text
            },
            Query::DeleteTodo { .. } => String::from_str(
                "DELETE FROM todos WHERE id = ? AND work_list_id = ?",
            ),
        }
    }

    /// Collects the values for the placeholders, in the order in which the
    /// placeholders occur in the text.
    pub fn params(&self) -> (params: Vec<Value>)
        ensures
            value_views(params@) == self@.params(),
    {
        let mut params: Vec<Value> = Vec::new();
        match self {
            Query::TokensByKey { key } => {
                params.push(Value::Text(key.clone()));
            },
            Query::ClientById { id } => {
                params.push(Value::Integer(*id));
            },
            Query::InsertWorkList { name, owner } => {
                params.push(Value::Text(name.clone()));
                params.push(Value::Integer(*owner));
            },
            Query::WorkListsOf { owner } => {
                params.push(Value::Integer(*owner));
            },
            Query::WorkListOf { id, owner } => {
                params.push(Value::Integer(*id));
                params.push(Value::Integer(*owner));
            },
            Query::RenameWorkList { id, owner, name } => {
                params.push(Value::Text(name.clone()));
                params.push(Value::Integer(*id));
                params.push(Value::Integer(*owner));
            },
            Query::DeleteWorkList { id, owner } => {
                params.push(Value::Integer(*id));
                params.push(Value::Integer(*owner));
            },
            Query::TodosIn { work_list_ids } => {
                params = integer_params(work_list_ids);
            },
            Query::TodoOf { id, owner } => {
                params.push(Value::Integer(*id));
                params.push(Value::Integer(*owner));
            },
            Query::OwnsWorkList { work_list_id, owner } => {
                params.push(Value::Integer(*work_list_id));
                params.push(Value::Integer(*owner));
            },
            Query::InsertTodo { content, work_list_id, owner } => {
                params.push(Value::Text(content.clone()));
                params.push(Value::Integer(*work_list_id));
                params.push(Value::Integer(*owner));
            },
            Query::UpdateTodo { id, work_list_id, assignments } => {
                params = bindings(assignments);
                params.push(Value::Integer(*id));
                params.push(Value::Integer(*work_list_id));
            },
            Query::DeleteTodo { id, work_list_id } => {
                params.push(Value::Integer(*id));
                params.push(Value::Integer(*work_list_id));
            },
        }
        assert(value_views(params@) =~= self@.params());
        params
    }

    /// Writes the query as a parameterized statement. A query that is not
    /// well formed has no statement: a membership test against nothing and
    /// an update that assigns nothing are never put to storage.
    pub fn statement(&self) -> (statement: Option<Statement>)
        ensures
            match statement {
                Some(statement) => self@.well_formed() && statement@ == self@.statement(),
                None => !self@.well_formed(),
            },
    {
        if self.is_well_formed() {
            Some(Statement { sql: self.sql(), params: self.params() })
        } else {
            None
        }
    }
}

} // verus!
