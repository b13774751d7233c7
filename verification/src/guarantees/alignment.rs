use vstd::prelude::*;
use crate::patch::{AssignmentView, bound_values, set_clause_text};
use crate::storage::query::QueryView;
use crate::storage::rows::lemma_filter_none;
use crate::storage::statement::{joined, placeholder_list};

verus! {

/// Holds of the placeholder character.
pub open spec fn is_mark() -> spec_fn(char) -> bool {
    |c: char| c == '?'
}

/// The number of placeholders in a text.
pub open spec fn marks(text: Seq<char>) -> nat {
    text.filter(is_mark()).len()
}

/// The text holds no placeholder.
pub open spec fn unmarked(text: Seq<char>) -> bool {
    forall|i: int| 0 <= i < text.len() ==> #[trigger] text[i] != '?'
}

/// The placeholders of two texts written one after the other are those of
/// the first and those of the second.
pub proof fn lemma_marks_add_up(first: Seq<char>, second: Seq<char>)
    ensures
        marks(first + second) == marks(first) + marks(second),
{
    Seq::filter_distributes_over_add(first, second, is_mark());
}

/// A text without placeholders counts none, and a placeholder counts one.
pub proof fn lemma_marks_of_pieces(text: Seq<char>)
    ensures
        unmarked(text) ==> marks(text) == 0,
        marks("?"@) == 1,
{
    lemma_filter_none(text, is_mark());
    let mark = "?"@;
    reveal_strlit("?");
    reveal(Seq::filter);
    assert(mark.last() == '?');
    assert(mark.drop_last().filter(is_mark()) =~= Seq::<char>::empty());
}

/// A text with one placeholder between two texts without.
pub proof fn lemma_marked_once(text: Seq<char>, a: Seq<char>, b: Seq<char>)
    requires
        text == a + "?"@ + b,
        unmarked(a),
        unmarked(b),
    ensures
        marks(text) == 1,
{
    lemma_marks_add_up(a + "?"@, b);
    lemma_marks_add_up(a, "?"@);
    lemma_marks_of_pieces(a);
    lemma_marks_of_pieces(b);
}

/// A text with two placeholders between three texts without.
pub proof fn lemma_marked_twice(text: Seq<char>, a: Seq<char>, b: Seq<char>, c: Seq<char>)
    requires
        text == a + "?"@ + b + "?"@ + c,
        unmarked(a),
        unmarked(b),
        unmarked(c),
    ensures
        marks(text) == 2,
{
    lemma_marked_once(a + "?"@ + b, a, b);
    lemma_marks_add_up(a + "?"@ + b + "?"@, c);
    lemma_marks_add_up(a + "?"@ + b, "?"@);
    lemma_marks_of_pieces(c);
}

/// A text with three placeholders between four texts without.
pub proof fn lemma_marked_thrice(
    text: Seq<char>,
    a: Seq<char>,
    b: Seq<char>,
    c: Seq<char>,
    d: Seq<char>,
)
    requires
        text == a + "?"@ + b + "?"@ + c + "?"@ + d,
        unmarked(a),
        unmarked(b),
        unmarked(c),
        unmarked(d),
    ensures
        marks(text) == 3,
{
    lemma_marked_twice(a + "?"@ + b + "?"@ + c, a, b, c);
    lemma_marks_add_up(a + "?"@ + b + "?"@ + c + "?"@, d);
    lemma_marks_add_up(a + "?"@ + b + "?"@ + c, "?"@);
    lemma_marks_of_pieces(d);
}

/// Parts with one placeholder each, joined by a separator without, hold as
/// many placeholders as there are parts.
pub proof fn lemma_marks_of_joined(parts: Seq<Seq<char>>, separator: Seq<char>)
    requires
        forall|i: int| 0 <= i < parts.len() ==> marks(#[trigger] parts[i]) == 1,
        unmarked(separator),
    ensures
        marks(joined(parts, separator)) == parts.len(),
    decreases parts.len(),
{
    if parts.len() == 0 {
        lemma_marks_of_pieces(Seq::<char>::empty());
    } else if parts.len() == 1 {
    } else {
        let shorter = parts.drop_last();
        assert forall|i: int| 0 <= i < shorter.len() implies marks(#[trigger] shorter[i]) == 1 by {
            assert(shorter[i] == parts[i]);
        }
        lemma_marks_of_joined(shorter, separator);
        lemma_marks_add_up(joined(shorter, separator) + separator, parts.last());
        lemma_marks_add_up(joined(shorter, separator), separator);
        lemma_marks_of_pieces(separator);
    }
}

/// A list of placeholders holds as many as were asked for.
pub proof fn lemma_marks_of_placeholder_list(count: nat)
    ensures
        marks(placeholder_list(count)) == count,
{
    reveal_strlit(", ");
    lemma_marks_of_pieces(Seq::<char>::empty());
    lemma_marks_of_joined(Seq::new(count, |i: int| "?"@), ", "@);
}

/// The clause of an assignment holds one placeholder.
pub proof fn lemma_marks_of_clause(assignment: AssignmentView)
    ensures
        marks(assignment.clause()) == 1,
{
    reveal_strlit("content");
    reveal_strlit("completed");
    reveal_strlit(" = ?");
    reveal_strlit(" = ");
    reveal_strlit("?");
    let column = assignment.column();
    assert(assignment.clause() =~= (column + " = "@) + "?"@ + Seq::<char>::empty());
    lemma_marked_once(assignment.clause(), column + " = "@, Seq::<char>::empty());
}

/// The text between `SET` and `WHERE` holds one placeholder for each
/// assignment.
pub proof fn lemma_marks_of_set_clause(assignments: Seq<AssignmentView>)
    ensures
        marks(set_clause_text(assignments)) == assignments.len(),
{
    reveal_strlit(", ");
    let clauses = assignments.map_values(|assignment: AssignmentView| assignment.clause());
    assert forall|i: int| 0 <= i < clauses.len() implies marks(#[trigger] clauses[i]) == 1 by {
        lemma_marks_of_clause(assignments[i]);
    }
    lemma_marks_of_joined(clauses, ", "@);
}

/// Every statement has exactly one bound value for each of its
/// placeholders. For an update the values stand in the order of the
/// clauses, since both are read off the same run of assignments.
pub proof fn lemma_one_value_for_each_placeholder(query: QueryView)
    ensures
        marks(query.sql()) == query.params().len(),
        (query matches QueryView::UpdateTodo { assignments, .. } ==> query.params().take(
            assignments.len() as int,
        ) == bound_values(assignments)),
{
    let sql = query.sql();
    let none = Seq::<char>::empty();
    reveal_strlit("?");
    match query {
        QueryView::TokensByKey { .. } => {
            reveal_strlit("SELECT key, client_id, valid_to FROM client_api_keys WHERE key = ?");
            reveal_strlit("SELECT key, client_id, valid_to FROM client_api_keys WHERE key = ");
            let a = "SELECT key, client_id, valid_to FROM client_api_keys WHERE key = "@;
            assert(sql =~= a + "?"@ + none);
            lemma_marked_once(sql, a, none);
        },
        QueryView::ClientById { .. } => {
            reveal_strlit("SELECT id, display_name FROM clients WHERE id = ?");
            reveal_strlit("SELECT id, display_name FROM clients WHERE id = ");
            let a = "SELECT id, display_name FROM clients WHERE id = "@;
            assert(sql =~= a + "?"@ + none);
            lemma_marked_once(sql, a, none);
        },
        QueryView::InsertWorkList { .. } => {
            reveal_strlit("INSERT INTO work_lists (name, client_id) VALUES (?, ?)");
            reveal_strlit("INSERT INTO work_lists (name, client_id) VALUES (");
            reveal_strlit(", ");
            reveal_strlit(")");
            let a = "INSERT INTO work_lists (name, client_id) VALUES ("@;
            assert(sql =~= a + "?"@ + ", "@ + "?"@ + ")"@);
            lemma_marked_twice(sql, a, ", "@, ")"@);
        },
        QueryView::WorkListsOf { .. } => {
            reveal_strlit("SELECT id, name FROM work_lists WHERE client_id = ?");
            reveal_strlit("SELECT id, name FROM work_lists WHERE client_id = ");
            let a = "SELECT id, name FROM work_lists WHERE client_id = "@;
            assert(sql =~= a + "?"@ + none);
            lemma_marked_once(sql, a, none);
        },
        QueryView::WorkListOf { .. } => {
            reveal_strlit("SELECT id, name FROM work_lists WHERE id = ? AND client_id = ?");
            reveal_strlit("SELECT id, name FROM work_lists WHERE id = ");
            reveal_strlit(" AND client_id = ");
            let a = "SELECT id, name FROM work_lists WHERE id = "@;
            let b = " AND client_id = "@;
            assert(sql =~= a + "?"@ + b + "?"@ + none);
            lemma_marked_twice(sql, a, b, none);
        },
        QueryView::RenameWorkList { .. } => {
            reveal_strlit("UPDATE work_lists SET name = ? WHERE id = ? AND client_id = ?");
            reveal_strlit("UPDATE work_lists SET name = ");
            reveal_strlit(" WHERE id = ");
            reveal_strlit(" AND client_id = ");
            let a = "UPDATE work_lists SET name = "@;
            let b = " WHERE id = "@;
            let c = " AND client_id = "@;
            assert(sql =~= a + "?"@ + b + "?"@ + c + "?"@ + none);
            lemma_marked_thrice(sql, a, b, c, none);
        },
        QueryView::DeleteWorkList { .. } => {
            reveal_strlit("DELETE FROM work_lists WHERE id = ? AND client_id = ?");
            reveal_strlit("DELETE FROM work_lists WHERE id = ");
            reveal_strlit(" AND client_id = ");
            let a = "DELETE FROM work_lists WHERE id = "@;
            let b = " AND client_id = "@;
            assert(sql =~= a + "?"@ + b + "?"@ + none);
            lemma_marked_twice(sql, a, b, none);
        },
        QueryView::TodosIn { work_list_ids } => {
            reveal_strlit(
                "SELECT id, content, completed, work_list_id FROM todos WHERE work_list_id IN (",
            );
            reveal_strlit(")");
            let a =
                "SELECT id, content, completed, work_list_id FROM todos WHERE work_list_id IN ("@;
            let list = placeholder_list(work_list_ids.len());
            lemma_marks_of_placeholder_list(work_list_ids.len());
            lemma_marks_add_up(a + list, ")"@);
            lemma_marks_add_up(a, list);
            lemma_marks_of_pieces(a);
            lemma_marks_of_pieces(")"@);
        },
        QueryView::TodoOf { .. } => {
            reveal_strlit(
                "SELECT todos.id, todos.content, todos.completed, todos.work_list_id FROM todos JOIN work_lists ON work_lists.id = todos.work_list_id WHERE todos.id = ? AND work_lists.client_id = ?",
            );
            reveal_strlit(
                "SELECT todos.id, todos.content, todos.completed, todos.work_list_id FROM todos JOIN work_lists ON work_lists.id = todos.work_list_id WHERE todos.id = ",
            );
            reveal_strlit(" AND work_lists.client_id = ");
            let a =
                "SELECT todos.id, todos.content, todos.completed, todos.work_list_id FROM todos JOIN work_lists ON work_lists.id = todos.work_list_id WHERE todos.id = "@;
            let b = " AND work_lists.client_id = "@;
            assert(sql =~= a + "?"@ + b + "?"@ + none);
            lemma_marked_twice(sql, a, b, none);
        },
        QueryView::OwnsWorkList { .. } => {
            reveal_strlit("SELECT ? IN (SELECT id FROM work_lists WHERE client_id = ?)");
            reveal_strlit("SELECT ");
            reveal_strlit(" IN (SELECT id FROM work_lists WHERE client_id = ");
            reveal_strlit(")");
            let a = "SELECT "@;
            let b = " IN (SELECT id FROM work_lists WHERE client_id = "@;
            assert(sql =~= a + "?"@ + b + "?"@ + ")"@);
            lemma_marked_twice(sql, a, b, ")"@);
        },
        QueryView::InsertTodo { .. } => {
            reveal_strlit(
                "INSERT INTO todos (content, completed, work_list_id) SELECT ?, false, id FROM work_lists WHERE id = ? AND client_id = ?",
            );
            reveal_strlit("INSERT INTO todos (content, completed, work_list_id) SELECT ");
            reveal_strlit(", false, id FROM work_lists WHERE id = ");
            reveal_strlit(" AND client_id = ");
            let a = "INSERT INTO todos (content, completed, work_list_id) SELECT "@;
            let b = ", false, id FROM work_lists WHERE id = "@;
            let c = " AND client_id = "@;
            assert(sql =~= a + "?"@ + b + "?"@ + c + "?"@ + none);
            lemma_marked_thrice(sql, a, b, c, none);
        },
        QueryView::UpdateTodo { assignments, .. } => {
            reveal_strlit("UPDATE todos SET ");
            reveal_strlit(" WHERE id = ? AND work_list_id = ?");
            reveal_strlit(" WHERE id = ");
            reveal_strlit(" AND work_list_id = ");
            let a = "UPDATE todos SET "@;
            let tail = " WHERE id = ? AND work_list_id = ?"@;
            let clause = set_clause_text(assignments);
            assert(tail =~= " WHERE id = "@ + "?"@ + " AND work_list_id = "@ + "?"@ + none);
            lemma_marked_twice(tail, " WHERE id = "@, " AND work_list_id = "@, none);
            lemma_marks_of_set_clause(assignments);
            lemma_marks_add_up(a + clause, tail);
            lemma_marks_add_up(a, clause);
            lemma_marks_of_pieces(a);
            assert(query.params().take(assignments.len() as int) =~= bound_values(assignments));
        },
        QueryView::DeleteTodo { .. } => {
            reveal_strlit("DELETE FROM todos WHERE id = ? AND work_list_id = ?");
            reveal_strlit("DELETE FROM todos WHERE id = ");
            reveal_strlit(" AND work_list_id = ");
            let a = "DELETE FROM todos WHERE id = "@;
            let b = " AND work_list_id = "@;
            assert(sql =~= a + "?"@ + b + "?"@ + none);
            lemma_marked_twice(sql, a, b, none);
        },
    }
}

} // verus!
