use tenant_todos::error::WebError;
use tenant_todos::forms::todo::CreateTodo;
use tenant_todos::forms::work_list::{CreateWorkList, UpdateWorkList};
use tenant_todos::model::todo::Todo;
use tenant_todos::model::work_list::{group_todos, select_todos, PendingFind, PendingList, WorkList};
use tenant_todos::storage::memory::MemoryStore;
use tenant_todos::storage::query::Query;
use tenant_todos::storage::reply::{Reply, Step, WorkListRow};
use tenant_todos::web_app::client::Client;

fn tenant(id: i64, name: &str) -> Client {
    Client::new(id, name.to_string())
}

fn new_list(name: &str, owner: &Client, store: &mut MemoryStore) -> WorkList {
    WorkList::create(CreateWorkList { name: name.to_string() }, owner, store).unwrap()
}

fn new_todo(content: &str, work_list_id: i64, owner: &Client, store: &mut MemoryStore) -> Todo {
    Todo::create(CreateTodo { content: content.to_string(), work_list_id }, owner, store).unwrap()
}

#[test]
fn created_work_list_starts_empty() {
    let mut store = MemoryStore::new();
    let alice = tenant(1, "alice");
    let list = new_list("chores", &alice, &mut store);
    assert_eq!(list.id(), 1);
    assert_eq!(list.name(), "chores");
    assert!(list.todos().is_empty());
}

#[test]
fn created_ids_are_never_returned_twice() {
    let mut store = MemoryStore::new();
    let alice = tenant(1, "alice");
    let bob = tenant(2, "bob");
    let first = new_list("a", &alice, &mut store);
    let second = new_list("b", &bob, &mut store);
    let third = new_list("c", &alice, &mut store);
    assert_eq!((first.id(), second.id(), third.id()), (1, 2, 3));
    third.delete(&alice, &mut store).unwrap();
    let fourth = new_list("d", &alice, &mut store);
    assert_eq!(fourth.id(), 4);
}

#[test]
fn another_tenant_cannot_find_rename_or_delete() {
    let mut store = MemoryStore::new();
    let alice = tenant(1, "alice");
    let bob = tenant(2, "bob");
    let id = new_list("chores", &bob, &mut store).id();
    assert!(matches!(WorkList::find(id, &alice, &mut store), Err(WebError::NotFound)));
    let mut forged = WorkList::new(id, "chores".to_string(), Vec::new());
    let renamed = forged.update(&alice, UpdateWorkList { name: "mine".to_string() }, &mut store);
    assert!(matches!(renamed, Err(WebError::NotFound)));
    assert_eq!(forged.name(), "chores");
    assert!(matches!(forged.delete(&alice, &mut store), Err(WebError::NotFound)));
    let kept = WorkList::find(id, &bob, &mut store).unwrap();
    assert_eq!(kept.name(), "chores");
}

#[test]
fn unknown_id_and_foreign_id_give_the_same_answer() {
    let mut store = MemoryStore::new();
    let alice = tenant(1, "alice");
    let bob = tenant(2, "bob");
    let id = new_list("chores", &bob, &mut store).id();
    let foreign = WorkList::find(id, &alice, &mut store).unwrap_err();
    let unknown = WorkList::find(id + 100, &alice, &mut store).unwrap_err();
    assert_eq!(foreign.identifier(), unknown.identifier());
    assert_eq!(foreign.detail(), unknown.detail());
    assert_eq!(foreign.status_code(), unknown.status_code());
}

#[test]
fn tenant_without_work_lists_lists_nothing() {
    let mut store = MemoryStore::new();
    let alice = tenant(1, "alice");
    let bob = tenant(2, "bob");
    new_list("chores", &bob, &mut store);
    assert!(WorkList::list(&alice, &mut store).unwrap().is_empty());
}

#[test]
fn empty_listing_never_asks_for_todos() {
    match PendingList::Rows.resume(Reply::WorkLists(Vec::new())) {
        Step::Done(Ok(lists)) => assert!(lists.is_empty()),
        _ => panic!("an empty listing must end at once"),
    }
}

#[test]
fn listing_asks_for_the_todos_of_its_rows() {
    let rows = vec![
        WorkListRow { id: 4, name: "a".to_string() },
        WorkListRow { id: 9, name: "b".to_string() },
    ];
    match PendingList::Rows.resume(Reply::WorkLists(rows)) {
        Step::Ask(Query::TodosIn { work_list_ids }, PendingList::Todos { rows }) => {
            assert_eq!(work_list_ids, vec![4, 9]);
            assert_eq!(rows.len(), 2);
        },
        _ => panic!("a listing with rows must ask for their todos"),
    }
}

#[test]
fn listing_groups_todos_by_work_list() {
    let mut store = MemoryStore::new();
    let alice = tenant(1, "alice");
    let bob = tenant(2, "bob");
    let chores = new_list("chores", &alice, &mut store).id();
    let other = new_list("bob's", &bob, &mut store).id();
    let work = new_list("work", &alice, &mut store).id();
    let empty = new_list("empty", &alice, &mut store).id();
    new_todo("dishes", chores, &alice, &mut store);
    new_todo("secret", other, &bob, &mut store);
    new_todo("report", work, &alice, &mut store);
    new_todo("laundry", chores, &alice, &mut store);
    let lists = WorkList::list(&alice, &mut store).unwrap();
    let ids: Vec<i64> = lists.iter().map(|list| list.id()).collect();
    assert_eq!(ids, vec![chores, work, empty]);
    let contents: Vec<Vec<&str>> = lists
        .iter()
        .map(|list| list.todos().iter().map(|todo| todo.content.as_str()).collect())
        .collect();
    assert_eq!(contents, vec![vec!["dishes", "laundry"], vec!["report"], vec![]]);
    assert_eq!(lists[0].name(), "chores");
}

#[test]
fn grouping_keeps_order_and_drops_strays() {
    let rows = vec![
        WorkListRow { id: 2, name: "two".to_string() },
        WorkListRow { id: 1, name: "one".to_string() },
    ];
    let todos = vec![
        Todo::new(10, "a".to_string(), false, 1),
        Todo::new(11, "b".to_string(), true, 2),
        Todo::new(12, "c".to_string(), false, 3),
        Todo::new(13, "d".to_string(), false, 1),
    ];
    let lists = group_todos(rows, &todos);
    assert_eq!(lists.len(), 2);
    assert_eq!(lists[0].id(), 2);
    assert_eq!(lists[0].todos().iter().map(|t| t.id).collect::<Vec<i64>>(), vec![11]);
    assert_eq!(lists[1].todos().iter().map(|t| t.id).collect::<Vec<i64>>(), vec![10, 13]);
    assert!(lists[0].todos()[0].completed);
    assert_eq!(select_todos(&todos, 3).len(), 1);
    assert!(select_todos(&todos, 4).is_empty());
}

#[test]
fn find_loads_the_todos_of_the_work_list() {
    let mut store = MemoryStore::new();
    let alice = tenant(1, "alice");
    let chores = new_list("chores", &alice, &mut store).id();
    let work = new_list("work", &alice, &mut store).id();
    new_todo("dishes", chores, &alice, &mut store);
    new_todo("report", work, &alice, &mut store);
    let found = WorkList::find(chores, &alice, &mut store).unwrap();
    assert_eq!(found.id(), chores);
    assert_eq!(found.name(), "chores");
    assert_eq!(found.todos().len(), 1);
    assert_eq!(found.todos()[0].content, "dishes");
    assert_eq!(found.todos()[0].work_list_id, chores);
}

#[test]
fn foreign_lookup_never_asks_for_todos() {
    assert!(matches!(
        PendingFind::Row.resume(Reply::WorkList(None)),
        Step::Done(Err(WebError::NotFound))
    ));
    match PendingFind::Row.resume(Reply::WorkList(Some(WorkListRow { id: 3, name: "n".to_string() }))) {
        Step::Ask(Query::TodosIn { work_list_ids }, PendingFind::Todos { row }) => {
            assert_eq!(work_list_ids, vec![3]);
            assert_eq!(row.name, "n");
        },
        _ => panic!("a found row must ask for its todos"),
    }
}

#[test]
fn update_renames_in_storage_and_in_memory() {
    let mut store = MemoryStore::new();
    let alice = tenant(1, "alice");
    let mut list = new_list("chores", &alice, &mut store);
    list.update(&alice, UpdateWorkList { name: "errands".to_string() }, &mut store).unwrap();
    assert_eq!(list.name(), "errands");
    assert_eq!(WorkList::find(list.id(), &alice, &mut store).unwrap().name(), "errands");
}

#[test]
fn update_of_a_deleted_work_list_is_not_found() {
    let mut store = MemoryStore::new();
    let alice = tenant(1, "alice");
    let id = new_list("chores", &alice, &mut store).id();
    WorkList::find(id, &alice, &mut store).unwrap().delete(&alice, &mut store).unwrap();
    let mut stale = WorkList::new(id, "chores".to_string(), Vec::new());
    let result = stale.update(&alice, UpdateWorkList { name: "x".to_string() }, &mut store);
    assert!(matches!(result, Err(WebError::NotFound)));
    assert_eq!(stale.name(), "chores");
}

#[test]
fn deleted_work_list_is_no_longer_found() {
    let mut store = MemoryStore::new();
    let alice = tenant(1, "alice");
    let list = new_list("chores", &alice, &mut store);
    let id = list.id();
    list.delete(&alice, &mut store).unwrap();
    assert!(matches!(WorkList::find(id, &alice, &mut store), Err(WebError::NotFound)));
    let again = WorkList::new(id, "chores".to_string(), Vec::new());
    assert!(matches!(again.delete(&alice, &mut store), Err(WebError::NotFound)));
}

#[test]
fn todos_of_a_deleted_work_list_are_out_of_reach() {
    let mut store = MemoryStore::new();
    let alice = tenant(1, "alice");
    let list = new_list("chores", &alice, &mut store);
    let id = list.id();
    let todo = new_todo("dishes", id, &alice, &mut store);
    list.delete(&alice, &mut store).unwrap();
    assert!(matches!(Todo::find(todo.id, &alice, &mut store), Err(WebError::NotFound)));
    let later = new_list("chores", &alice, &mut store);
    assert!(later.id() != id);
    assert!(WorkList::find(later.id(), &alice, &mut store).unwrap().todos().is_empty());
}

#[test]
fn work_list_machines_report_storage_failure() {
    let alice = tenant(1, "alice");
    match WorkList::begin_create(CreateWorkList { name: "n".to_string() }, &alice) {
        Step::Ask(Query::InsertWorkList { name, owner }, pending) => {
            assert_eq!(name, "n");
            assert_eq!(owner, 1);
            assert!(matches!(pending.resume(Reply::Failed), Step::Done(Err(WebError::StorageFailure))));
        },
        _ => panic!("a creation must ask for an insert"),
    }
    assert!(matches!(PendingList::Rows.resume(Reply::Failed), Step::Done(Err(WebError::StorageFailure))));
    assert!(matches!(PendingFind::Row.resume(Reply::Flag(true)), Step::Done(Err(WebError::StorageFailure))));
    let mut list = WorkList::new(5, "old".to_string(), Vec::new());
    match list.begin_update(&alice, UpdateWorkList { name: "new".to_string() }) {
        Step::Ask(Query::RenameWorkList { id, owner, name }, pending) => {
            assert_eq!((id, owner), (5, 1));
            assert_eq!(name, "new");
            assert!(matches!(
                pending.resume(&mut list, Reply::Failed),
                Step::Done(Err(WebError::StorageFailure))
            ));
            assert_eq!(list.name(), "old");
        },
        _ => panic!("a renaming must ask for an update"),
    }
    match list.begin_delete(&alice) {
        Step::Ask(Query::DeleteWorkList { id, owner }, pending) => {
            assert_eq!((id, owner), (5, 1));
            assert!(matches!(pending.resume(Reply::Affected(0)), Step::Done(Err(WebError::NotFound))));
        },
        _ => panic!("a deletion must ask for a delete"),
    }
}
