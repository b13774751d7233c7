use tenant_todos::error::WebError;
use tenant_todos::forms::todo::{CreateTodo, UpdateTodo};
use tenant_todos::forms::work_list::CreateWorkList;
use tenant_todos::model::todo::{PendingDelete, PendingUpdate, Todo};
use tenant_todos::model::work_list::WorkList;
use tenant_todos::patch::{apply_assignments, set_clause, Assignment};
use tenant_todos::storage::memory::MemoryStore;
use tenant_todos::storage::query::Query;
use tenant_todos::storage::reply::{Reply, Step};
use tenant_todos::web_app::client::Client;

fn tenant(id: i64, name: &str) -> Client {
    Client::new(id, name.to_string())
}

fn new_list(name: &str, owner: &Client, store: &mut MemoryStore) -> i64 {
    WorkList::create(CreateWorkList { name: name.to_string() }, owner, store).unwrap().id()
}

fn new_todo(content: &str, work_list_id: i64, owner: &Client, store: &mut MemoryStore) -> Todo {
    Todo::create(CreateTodo { content: content.to_string(), work_list_id }, owner, store).unwrap()
}

fn only_content(text: &str) -> UpdateTodo {
    UpdateTodo { content: Some(text.to_string()), completed: None }
}

fn only_completed(flag: bool) -> UpdateTodo {
    UpdateTodo { content: None, completed: Some(flag) }
}

#[test]
fn created_todo_is_not_completed() {
    let mut store = MemoryStore::new();
    let alice = tenant(1, "alice");
    let list = new_list("chores", &alice, &mut store);
    let todo = new_todo("dishes", list, &alice, &mut store);
    assert_eq!(todo.id, 1);
    assert_eq!(todo.content, "dishes");
    assert!(!todo.completed);
    assert_eq!(todo.work_list_id, list);
    let found = Todo::find(todo.id, &alice, &mut store).unwrap();
    assert_eq!(found.content, "dishes");
    assert!(!found.completed);
}

#[test]
fn todo_ids_are_never_returned_twice() {
    let mut store = MemoryStore::new();
    let alice = tenant(1, "alice");
    let list = new_list("chores", &alice, &mut store);
    let first = new_todo("a", list, &alice, &mut store);
    let second = new_todo("b", list, &alice, &mut store);
    assert_eq!((first.id, second.id), (1, 2));
    second.delete(&alice, &mut store).unwrap();
    assert_eq!(new_todo("c", list, &alice, &mut store).id, 3);
}

#[test]
fn todo_cannot_be_created_under_a_foreign_work_list() {
    let mut store = MemoryStore::new();
    let alice = tenant(1, "alice");
    let bob = tenant(2, "bob");
    let list = new_list("chores", &bob, &mut store);
    let form = CreateTodo { content: "intrusion".to_string(), work_list_id: list };
    assert!(matches!(Todo::create(form, &alice, &mut store), Err(WebError::NotFound)));
    let form = CreateTodo { content: "nowhere".to_string(), work_list_id: list + 50 };
    assert!(matches!(Todo::create(form, &alice, &mut store), Err(WebError::NotFound)));
    assert!(WorkList::find(list, &bob, &mut store).unwrap().todos().is_empty());
}

#[test]
fn update_of_content_leaves_completed() {
    let mut store = MemoryStore::new();
    let alice = tenant(1, "alice");
    let list = new_list("chores", &alice, &mut store);
    let mut todo = new_todo("dishes", list, &alice, &mut store);
    todo.update(only_completed(true), &alice, &mut store).unwrap();
    todo.update(only_content("x"), &alice, &mut store).unwrap();
    assert_eq!(todo.content, "x");
    assert!(todo.completed);
    let stored = Todo::find(todo.id, &alice, &mut store).unwrap();
    assert_eq!(stored.content, "x");
    assert!(stored.completed);
}

#[test]
fn update_of_completed_leaves_content() {
    let mut store = MemoryStore::new();
    let alice = tenant(1, "alice");
    let list = new_list("chores", &alice, &mut store);
    let mut todo = new_todo("dishes", list, &alice, &mut store);
    todo.update(only_completed(true), &alice, &mut store).unwrap();
    assert_eq!(todo.content, "dishes");
    assert!(todo.completed);
    let stored = Todo::find(todo.id, &alice, &mut store).unwrap();
    assert_eq!(stored.content, "dishes");
    assert!(stored.completed);
    assert_eq!(stored.work_list_id, list);
}

#[test]
fn update_of_both_fields_changes_both() {
    let mut store = MemoryStore::new();
    let alice = tenant(1, "alice");
    let list = new_list("chores", &alice, &mut store);
    let mut todo = new_todo("dishes", list, &alice, &mut store);
    let patch = UpdateTodo { content: Some("laundry".to_string()), completed: Some(true) };
    todo.update(patch, &alice, &mut store).unwrap();
    let stored = Todo::find(todo.id, &alice, &mut store).unwrap();
    assert_eq!((stored.content.as_str(), stored.completed), ("laundry", true));
    assert_eq!((todo.content.as_str(), todo.completed), ("laundry", true));
}

#[test]
fn empty_update_succeeds_and_changes_nothing() {
    let mut store = MemoryStore::new();
    let alice = tenant(1, "alice");
    let list = new_list("chores", &alice, &mut store);
    let mut todo = new_todo("dishes", list, &alice, &mut store);
    todo.update(UpdateTodo { content: None, completed: None }, &alice, &mut store).unwrap();
    assert_eq!(todo.content, "dishes");
    assert!(!todo.completed);
    let stored = Todo::find(todo.id, &alice, &mut store).unwrap();
    assert_eq!(stored.content, "dishes");
    assert!(!stored.completed);
}

#[test]
fn empty_update_writes_no_statement() {
    let pending = PendingUpdate::Authorize { id: 1, work_list_id: 2, assignments: Vec::new() };
    let mut todo = Todo::new(1, "dishes".to_string(), false, 2);
    assert!(matches!(pending.resume(&mut todo, Reply::Flag(true)), Step::Done(Ok(()))));
    assert!(UpdateTodo { content: None, completed: None }.is_empty());
    assert!(UpdateTodo { content: None, completed: None }.assignments().is_empty());
    assert!(!only_completed(false).is_empty());
}

#[test]
fn update_touches_no_other_todo() {
    let mut store = MemoryStore::new();
    let alice = tenant(1, "alice");
    let list = new_list("chores", &alice, &mut store);
    let mut first = new_todo("dishes", list, &alice, &mut store);
    let second = new_todo("laundry", list, &alice, &mut store);
    first.update(UpdateTodo { content: Some("x".to_string()), completed: Some(true) }, &alice, &mut store)
        .unwrap();
    let untouched = Todo::find(second.id, &alice, &mut store).unwrap();
    assert_eq!((untouched.content.as_str(), untouched.completed), ("laundry", false));
}

#[test]
fn another_tenant_cannot_find_update_or_delete_a_todo() {
    let mut store = MemoryStore::new();
    let alice = tenant(1, "alice");
    let bob = tenant(2, "bob");
    let list = new_list("chores", &bob, &mut store);
    let todo = new_todo("dishes", list, &bob, &mut store);
    assert!(matches!(Todo::find(todo.id, &alice, &mut store), Err(WebError::NotFound)));
    let mut copy = todo.duplicate();
    assert!(matches!(copy.update(only_content("x"), &alice, &mut store), Err(WebError::NotFound)));
    assert_eq!(copy.content, "dishes");
    let mut copy = todo.duplicate();
    let empty = UpdateTodo { content: None, completed: None };
    assert!(matches!(copy.update(empty, &alice, &mut store), Err(WebError::NotFound)));
    assert!(matches!(todo.duplicate().delete(&alice, &mut store), Err(WebError::NotFound)));
    let stored = Todo::find(todo.id, &bob, &mut store).unwrap();
    assert_eq!((stored.content.as_str(), stored.completed), ("dishes", false));
}

#[test]
fn forged_work_list_id_reaches_no_foreign_todo() {
    let mut store = MemoryStore::new();
    let alice = tenant(1, "alice");
    let bob = tenant(2, "bob");
    let own = new_list("mine", &alice, &mut store);
    let list = new_list("chores", &bob, &mut store);
    let todo = new_todo("dishes", list, &bob, &mut store);
    let mut forged = Todo::new(todo.id, "dishes".to_string(), false, own);
    let result = forged.update(only_completed(true), &alice, &mut store);
    assert!(matches!(result, Err(WebError::NotFound)));
    assert!(!forged.completed);
    let forged = Todo::new(todo.id, "dishes".to_string(), false, own);
    assert!(matches!(forged.delete(&alice, &mut store), Err(WebError::NotFound)));
    let stored = Todo::find(todo.id, &bob, &mut store).unwrap();
    assert_eq!((stored.content.as_str(), stored.completed), ("dishes", false));
}

#[test]
fn deleted_todo_is_no_longer_found() {
    let mut store = MemoryStore::new();
    let alice = tenant(1, "alice");
    let list = new_list("chores", &alice, &mut store);
    let todo = new_todo("dishes", list, &alice, &mut store);
    let other = new_todo("laundry", list, &alice, &mut store);
    let id = todo.id;
    todo.delete(&alice, &mut store).unwrap();
    assert!(matches!(Todo::find(id, &alice, &mut store), Err(WebError::NotFound)));
    assert!(Todo::find(other.id, &alice, &mut store).is_ok());
    let stale = Todo::new(id, "dishes".to_string(), false, list);
    assert!(matches!(stale.delete(&alice, &mut store), Err(WebError::NotFound)));
}

#[test]
fn update_of_a_deleted_todo_is_not_found() {
    let mut store = MemoryStore::new();
    let alice = tenant(1, "alice");
    let list = new_list("chores", &alice, &mut store);
    let todo = new_todo("dishes", list, &alice, &mut store);
    let mut stale = todo.duplicate();
    todo.delete(&alice, &mut store).unwrap();
    assert!(matches!(stale.update(only_content("x"), &alice, &mut store), Err(WebError::NotFound)));
    assert_eq!(stale.content, "dishes");
}

#[test]
fn assignments_follow_the_patch_in_order() {
    let both = UpdateTodo { content: Some("x".to_string()), completed: Some(true) }.assignments();
    assert_eq!(both.len(), 2);
    assert!(matches!(&both[0], Assignment::Content(text) if text == "x"));
    assert!(matches!(&both[1], Assignment::Completed(true)));
    assert_eq!(set_clause(&both), "content = ?, completed = ?");
    assert_eq!(set_clause(&only_content("x").assignments()), "content = ?");
    assert_eq!(set_clause(&only_completed(false).assignments()), "completed = ?");
    assert_eq!(set_clause(&Vec::new()), "");
    assert_eq!(both[0].clause(), "content = ?");
    assert_eq!(both[1].clause(), "completed = ?");
}

#[test]
fn assignments_apply_in_order() {
    let mut todo = Todo::new(3, "a".to_string(), false, 4);
    let run = vec![
        Assignment::Content("b".to_string()),
        Assignment::Completed(true),
        Assignment::Content("c".to_string()),
    ];
    apply_assignments(&mut todo, &run);
    assert_eq!((todo.id, todo.content.as_str(), todo.completed, todo.work_list_id), (3, "c", true, 4));
    apply_assignments(&mut todo, &Vec::new());
    assert_eq!((todo.id, todo.content.as_str(), todo.completed, todo.work_list_id), (3, "c", true, 4));
}

#[test]
fn update_machine_checks_ownership_first() {
    let alice = tenant(1, "alice");
    let mut todo = Todo::new(8, "dishes".to_string(), false, 3);
    let pending = match todo.begin_update(only_content("x"), &alice) {
        Step::Ask(Query::OwnsWorkList { work_list_id, owner }, pending) => {
            assert_eq!((work_list_id, owner), (3, 1));
            pending
        },
        _ => panic!("an update must begin with the ownership check"),
    };
    let pending = match pending.resume(&mut todo, Reply::Flag(true)) {
        Step::Ask(Query::UpdateTodo { id, work_list_id, assignments }, pending) => {
            assert_eq!((id, work_list_id), (8, 3));
            assert_eq!(assignments.len(), 1);
            pending
        },
        _ => panic!("an authorized update must ask for the write"),
    };
    assert_eq!(todo.content, "dishes");
    assert!(matches!(pending.resume(&mut todo, Reply::Affected(1)), Step::Done(Ok(()))));
    assert_eq!(todo.content, "x");
}

#[test]
fn update_machine_refuses_and_fails_without_change() {
    let alice = tenant(1, "alice");
    let mut todo = Todo::new(8, "dishes".to_string(), false, 3);
    let refused = match todo.begin_update(only_content("x"), &alice) {
        Step::Ask(_, pending) => pending.resume(&mut todo, Reply::Flag(false)),
        _ => panic!("an update must begin with the ownership check"),
    };
    assert!(matches!(refused, Step::Done(Err(WebError::NotFound))));
    let failed = match todo.begin_update(only_content("x"), &alice) {
        Step::Ask(_, pending) => pending.resume(&mut todo, Reply::Failed),
        _ => panic!("an update must begin with the ownership check"),
    };
    assert!(matches!(failed, Step::Done(Err(WebError::StorageFailure))));
    let persist = PendingUpdate::Persist { assignments: vec![Assignment::Completed(true)] };
    assert!(matches!(persist.resume(&mut todo, Reply::Affected(0)), Step::Done(Err(WebError::NotFound))));
    let persist = PendingUpdate::Persist { assignments: vec![Assignment::Completed(true)] };
    assert!(matches!(persist.resume(&mut todo, Reply::Failed), Step::Done(Err(WebError::StorageFailure))));
    assert_eq!((todo.content.as_str(), todo.completed), ("dishes", false));
}

#[test]
fn delete_machine_checks_ownership_first() {
    let alice = tenant(1, "alice");
    let todo = Todo::new(8, "dishes".to_string(), false, 3);
    let pending = match todo.begin_delete(&alice) {
        Step::Ask(Query::OwnsWorkList { work_list_id, owner }, pending) => {
            assert_eq!((work_list_id, owner), (3, 1));
            pending
        },
        _ => panic!("a deletion must begin with the ownership check"),
    };
    match pending.resume(Reply::Flag(true)) {
        Step::Ask(Query::DeleteTodo { id, work_list_id }, PendingDelete::Remove) => {
            assert_eq!((id, work_list_id), (8, 3));
        },
        _ => panic!("an authorized deletion must ask for the removal"),
    }
    let refused = PendingDelete::Authorize { id: 8, work_list_id: 3 }.resume(Reply::Flag(false));
    assert!(matches!(refused, Step::Done(Err(WebError::NotFound))));
    assert!(matches!(PendingDelete::Remove.resume(Reply::Affected(1)), Step::Done(Ok(()))));
    assert!(matches!(PendingDelete::Remove.resume(Reply::Affected(0)), Step::Done(Err(WebError::NotFound))));
    assert!(matches!(PendingDelete::Remove.resume(Reply::Failed), Step::Done(Err(WebError::StorageFailure))));
}

#[test]
fn create_and_find_machines_handle_every_answer() {
    let alice = tenant(1, "alice");
    let form = CreateTodo { content: "dishes".to_string(), work_list_id: 3 };
    match Todo::begin_create(form, &alice) {
        Step::Ask(Query::InsertTodo { content, work_list_id, owner }, pending) => {
            assert_eq!(content, "dishes");
            assert_eq!((work_list_id, owner), (3, 1));
            match pending.resume(Reply::Inserted(Some(12))) {
                Step::Done(Ok(todo)) => {
                    assert_eq!((todo.id, todo.completed, todo.work_list_id), (12, false, 3));
                    assert_eq!(todo.content, "dishes");
                },
                _ => panic!("an inserted row must end the creation"),
            }
        },
        _ => panic!("a creation must ask for an insert"),
    }
    let form = CreateTodo { content: "dishes".to_string(), work_list_id: 3 };
    match Todo::begin_create(form, &alice) {
        Step::Ask(_, pending) => {
            assert!(matches!(pending.resume(Reply::Inserted(None)), Step::Done(Err(WebError::NotFound))));
        },
        _ => panic!("a creation must ask for an insert"),
    }
    match Todo::begin_find(12, &alice) {
        Step::Ask(Query::TodoOf { id, owner }, pending) => {
            assert_eq!((id, owner), (12, 1));
            assert!(matches!(pending.resume(Reply::Todo(None)), Step::Done(Err(WebError::NotFound))));
        },
        _ => panic!("a lookup must ask for the row"),
    }
    match Todo::begin_find(12, &alice) {
        Step::Ask(_, pending) => {
            assert!(matches!(pending.resume(Reply::Failed), Step::Done(Err(WebError::StorageFailure))));
        },
        _ => panic!("a lookup must ask for the row"),
    }
    assert!(matches!(Todo::authorize(3, &alice), Query::OwnsWorkList { work_list_id: 3, owner: 1 }));
}
