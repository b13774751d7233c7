use sqlx::Arguments;
use tenant_todos::patch::Assignment;
use tenant_todos::storage::binding::bind;
use tenant_todos::storage::query::{bindings, integer_params, Query};
use tenant_todos::storage::statement::{placeholders, Statement, Value};

fn shown(values: &[Value]) -> Vec<String> {
    values
        .iter()
        .map(|value| match value {
            Value::Integer(number) => format!("i:{}", number),
            Value::Text(text) => format!("t:{}", text),
            Value::Boolean(flag) => format!("b:{}", flag),
        })
        .collect()
}

fn marks(sql: &str) -> usize {
    sql.chars().filter(|c| *c == '?').count()
}

#[test]
fn placeholders_are_separated_by_commas() {
    assert_eq!(placeholders(0), "");
    assert_eq!(placeholders(1), "?");
    assert_eq!(placeholders(2), "?, ?");
    assert_eq!(placeholders(4), "?, ?, ?, ?");
}

#[test]
fn update_statement_binds_values_in_clause_order() {
    let query = Query::UpdateTodo {
        id: 7,
        work_list_id: 3,
        assignments: vec![Assignment::Content("x".to_string()), Assignment::Completed(true)],
    };
    let statement = query.statement().unwrap();
    assert_eq!(
        statement.sql,
        "UPDATE todos SET content = ?, completed = ? WHERE id = ? AND work_list_id = ?"
    );
    assert_eq!(shown(&statement.params), vec!["t:x", "b:true", "i:7", "i:3"]);
}

#[test]
fn update_statement_names_only_present_fields() {
    let query = Query::UpdateTodo {
        id: 7,
        work_list_id: 3,
        assignments: vec![Assignment::Completed(false)],
    };
    let statement = query.statement().unwrap();
    assert_eq!(statement.sql, "UPDATE todos SET completed = ? WHERE id = ? AND work_list_id = ?");
    assert_eq!(shown(&statement.params), vec!["b:false", "i:7", "i:3"]);
    let query = Query::UpdateTodo {
        id: 7,
        work_list_id: 3,
        assignments: vec![Assignment::Content("y".to_string())],
    };
    let statement = query.statement().unwrap();
    assert_eq!(statement.sql, "UPDATE todos SET content = ? WHERE id = ? AND work_list_id = ?");
    assert_eq!(shown(&statement.params), vec!["t:y", "i:7", "i:3"]);
}

#[test]
fn update_without_assignments_has_no_statement() {
    let query = Query::UpdateTodo { id: 7, work_list_id: 3, assignments: Vec::new() };
    assert!(!query.is_well_formed());
    assert!(query.statement().is_none());
}

#[test]
fn membership_in_nothing_has_no_statement() {
    let query = Query::TodosIn { work_list_ids: Vec::new() };
    assert!(!query.is_well_formed());
    assert!(query.statement().is_none());
}

#[test]
fn membership_statement_has_one_placeholder_per_id() {
    let statement = Query::TodosIn { work_list_ids: vec![4, 9, -2] }.statement().unwrap();
    assert_eq!(
        statement.sql,
        "SELECT id, content, completed, work_list_id FROM todos WHERE work_list_id IN (?, ?, ?)"
    );
    assert_eq!(shown(&statement.params), vec!["i:4", "i:9", "i:-2"]);
    let statement = Query::TodosIn { work_list_ids: vec![5] }.statement().unwrap();
    assert_eq!(
        statement.sql,
        "SELECT id, content, completed, work_list_id FROM todos WHERE work_list_id IN (?)"
    );
}

#[test]
fn fixed_statements_are_scoped_to_the_owner() {
    let statement = Query::WorkListOf { id: 4, owner: 2 }.statement().unwrap();
    assert_eq!(statement.sql, "SELECT id, name FROM work_lists WHERE id = ? AND client_id = ?");
    assert_eq!(shown(&statement.params), vec!["i:4", "i:2"]);
    let statement = Query::WorkListsOf { owner: 2 }.statement().unwrap();
    assert_eq!(statement.sql, "SELECT id, name FROM work_lists WHERE client_id = ?");
    assert_eq!(shown(&statement.params), vec!["i:2"]);
    let statement =
        Query::RenameWorkList { id: 4, owner: 2, name: "n".to_string() }.statement().unwrap();
    assert_eq!(statement.sql, "UPDATE work_lists SET name = ? WHERE id = ? AND client_id = ?");
    assert_eq!(shown(&statement.params), vec!["t:n", "i:4", "i:2"]);
    let statement = Query::DeleteWorkList { id: 4, owner: 2 }.statement().unwrap();
    assert_eq!(statement.sql, "DELETE FROM work_lists WHERE id = ? AND client_id = ?");
    assert_eq!(shown(&statement.params), vec!["i:4", "i:2"]);
    let statement = Query::InsertWorkList { name: "n".to_string(), owner: 2 }.statement().unwrap();
    assert_eq!(statement.sql, "INSERT INTO work_lists (name, client_id) VALUES (?, ?)");
    assert_eq!(shown(&statement.params), vec!["t:n", "i:2"]);
    let statement = Query::TodoOf { id: 8, owner: 2 }.statement().unwrap();
    assert_eq!(
        statement.sql,
        "SELECT todos.id, todos.content, todos.completed, todos.work_list_id FROM todos JOIN work_lists ON work_lists.id = todos.work_list_id WHERE todos.id = ? AND work_lists.client_id = ?"
    );
    assert_eq!(shown(&statement.params), vec!["i:8", "i:2"]);
    let statement = Query::OwnsWorkList { work_list_id: 4, owner: 2 }.statement().unwrap();
    assert_eq!(statement.sql, "SELECT ? IN (SELECT id FROM work_lists WHERE client_id = ?)");
    assert_eq!(shown(&statement.params), vec!["i:4", "i:2"]);
    let statement = Query::InsertTodo { content: "c".to_string(), work_list_id: 4, owner: 2 }
        .statement()
        .unwrap();
    assert_eq!(
        statement.sql,
        "INSERT INTO todos (content, completed, work_list_id) SELECT ?, false, id FROM work_lists WHERE id = ? AND client_id = ?"
    );
    assert_eq!(shown(&statement.params), vec!["t:c", "i:4", "i:2"]);
    let statement = Query::DeleteTodo { id: 8, work_list_id: 4 }.statement().unwrap();
    assert_eq!(statement.sql, "DELETE FROM todos WHERE id = ? AND work_list_id = ?");
    assert_eq!(shown(&statement.params), vec!["i:8", "i:4"]);
    let statement = Query::TokensByKey { key: "k".to_string() }.statement().unwrap();
    assert_eq!(statement.sql, "SELECT key, client_id, valid_to FROM client_api_keys WHERE key = ?");
    assert_eq!(shown(&statement.params), vec!["t:k"]);
    let statement = Query::ClientById { id: 6 }.statement().unwrap();
    assert_eq!(statement.sql, "SELECT id, display_name FROM clients WHERE id = ?");
    assert_eq!(shown(&statement.params), vec!["i:6"]);
}

#[test]
fn every_statement_has_one_value_per_placeholder() {
    let queries = vec![
        Query::TokensByKey { key: "k".to_string() },
        Query::ClientById { id: 1 },
        Query::InsertWorkList { name: "n".to_string(), owner: 1 },
        Query::WorkListsOf { owner: 1 },
        Query::WorkListOf { id: 1, owner: 1 },
        Query::RenameWorkList { id: 1, owner: 1, name: "n".to_string() },
        Query::DeleteWorkList { id: 1, owner: 1 },
        Query::TodosIn { work_list_ids: vec![1, 2, 3, 4, 5] },
        Query::TodoOf { id: 1, owner: 1 },
        Query::OwnsWorkList { work_list_id: 1, owner: 1 },
        Query::InsertTodo { content: "c".to_string(), work_list_id: 1, owner: 1 },
        Query::UpdateTodo {
            id: 1,
            work_list_id: 1,
            assignments: vec![Assignment::Completed(true), Assignment::Content("c".to_string())],
        },
        Query::DeleteTodo { id: 1, work_list_id: 1 },
    ];
    for query in queries {
        let statement = query.statement().unwrap();
        assert_eq!(marks(&statement.sql), statement.params.len());
        assert_eq!(statement.sql, query.sql());
        assert_eq!(shown(&statement.params), shown(&query.params()));
    }
}

#[test]
fn values_are_collected_in_order() {
    assert_eq!(shown(&integer_params(&vec![3, 1, 2])), vec!["i:3", "i:1", "i:2"]);
    assert!(integer_params(&Vec::new()).is_empty());
    let run = vec![Assignment::Completed(true), Assignment::Content("c".to_string())];
    assert_eq!(shown(&bindings(&run)), vec!["b:true", "t:c"]);
    assert_eq!(shown(&[run[1].value()]), vec!["t:c"]);
    assert!(matches!(run[0].duplicate(), Assignment::Completed(true)));
}

#[test]
fn arguments_hold_the_values_in_order() {
    let query = Query::UpdateTodo {
        id: 7,
        work_list_id: 3,
        assignments: vec![Assignment::Content("x".to_string()), Assignment::Completed(true)],
    };
    let arguments = query.statement().unwrap().arguments();
    assert_eq!(arguments.len(), 4);
    assert_eq!(
        format!("{:?}", arguments),
        "SqliteArguments { values: [Text(\"x\"), Int(1), Int64(7), Int64(3)] }"
    );
}

#[test]
fn arguments_of_a_statement_without_values_are_empty() {
    let statement = Statement { sql: "SELECT 1".to_string(), params: Vec::new() };
    assert_eq!(statement.arguments().len(), 0);
    assert_eq!(format!("{:?}", statement.arguments()), "SqliteArguments { values: [] }");
}

#[test]
fn each_kind_of_value_is_bound_once() {
    let statement = Statement { sql: String::new(), params: Vec::new() };
    let mut arguments = statement.arguments();
    bind(&mut arguments, &Value::Integer(-5));
    assert_eq!(format!("{:?}", arguments), "SqliteArguments { values: [Int64(-5)] }");
    bind(&mut arguments, &Value::Text("a?b".to_string()));
    assert_eq!(
        format!("{:?}", arguments),
        "SqliteArguments { values: [Int64(-5), Text(\"a?b\")] }"
    );
    bind(&mut arguments, &Value::Boolean(false));
    assert_eq!(
        format!("{:?}", arguments),
        "SqliteArguments { values: [Int64(-5), Text(\"a?b\"), Int(0)] }"
    );
    assert_eq!(arguments.len(), 3);
}

#[test]
fn every_statement_binds_one_argument_per_placeholder() {
    let queries = vec![
        Query::TokensByKey { key: "k".to_string() },
        Query::TodosIn { work_list_ids: vec![1, 2, 3] },
        Query::InsertTodo { content: "c".to_string(), work_list_id: 1, owner: 1 },
        Query::RenameWorkList { id: 1, owner: 1, name: "n".to_string() },
        Query::UpdateTodo { id: 1, work_list_id: 1, assignments: vec![Assignment::Completed(true)] },
    ];
    for query in queries {
        let statement = query.statement().unwrap();
        assert_eq!(statement.arguments().len(), marks(&statement.sql));
    }
}
