use todo_store::error::{not_found_message, StoreError};
use todo_store::store::TodoStore;
use todo_store::todo::Todo;

fn todo(id: &str, title: &str, completed: bool) -> Todo {
    Todo { id: id.to_string(), title: title.to_string(), completed }
}

fn id(text: &str) -> String {
    text.to_string()
}

#[test]
fn new_store_lists_nothing() {
    let store = TodoStore::new();
    assert_eq!(store.list(), Vec::<Todo>::new());
}

#[test]
fn from_todos_keeps_the_given_order() {
    let given = vec![todo("b", "second", true), todo("a", "first", false)];
    let store = TodoStore::from_todos(given.clone());
    assert_eq!(store.list(), given);
}

#[test]
fn list_is_a_snapshot() {
    let mut store = TodoStore::new();
    store.create_with_id(id("a"), id("x"));
    let before = store.list();
    store.create_with_id(id("b"), id("y"));
    assert_eq!(before, vec![todo("a", "x", false)]);
    assert_eq!(store.list().len(), 2);
}

#[test]
fn create_with_id_appends_an_open_todo() {
    let mut store = TodoStore::from_todos(vec![todo("a", "x", true)]);
    let made = store.create_with_id(id("b"), id("y"));
    assert_eq!(made, todo("b", "y", false));
    assert_eq!(store.list(), vec![todo("a", "x", true), todo("b", "y", false)]);
}

#[test]
fn create_accepts_an_empty_title() {
    let mut store = TodoStore::new();
    let made = store.create(String::new());
    assert_eq!(made.title, "");
    assert!(!made.completed);
    assert_eq!(store.list(), vec![made]);
}

#[test]
fn create_returns_the_todo_it_stored() {
    let mut store = TodoStore::new();
    let made = store.create(id("x"));
    assert!(!made.id.is_empty());
    assert_eq!(made.title, "x");
    assert!(!made.completed);
    let listed = store.list();
    assert_eq!(listed.len(), 1);
    assert_eq!(listed[0], made);
    assert_eq!(store.get(&made.id), Ok(made));
}

#[test]
fn created_ids_are_canonical_random_uuids() {
    let mut store = TodoStore::new();
    for _ in 0..50 {
        let made = store.create(id("t"));
        let chars: Vec<char> = made.id.chars().collect();
        assert_eq!(chars.len(), 36);
        assert_eq!(made.id.len(), 36);
        for (i, c) in chars.iter().enumerate() {
            if i == 8 || i == 13 || i == 18 || i == 23 {
                assert_eq!(*c, '-');
            } else {
                assert!(matches!(*c, '0'..='9' | 'a'..='f'), "{:?} at {}", c, i);
            }
        }
        assert_eq!(chars[14], '4');
        assert!(matches!(chars[19], '8' | '9' | 'a' | 'b'));
    }
}

#[test]
fn creations_are_listed_in_call_order_with_distinct_ids() {
    let mut store = TodoStore::new();
    let mut made = Vec::new();
    for n in 0..20 {
        made.push(store.create(format!("todo {}", n)));
    }
    let listed = store.list();
    assert_eq!(listed.len(), 20);
    assert_eq!(listed, made);
    for (i, a) in listed.iter().enumerate() {
        assert!(!a.completed);
        assert_eq!(a.title, format!("todo {}", i));
        for b in listed.iter().skip(i + 1) {
            assert_ne!(a.id, b.id);
        }
    }
}

#[test]
fn get_returns_the_matching_todo() {
    let store = TodoStore::from_todos(vec![todo("a", "x", false), todo("b", "y", true)]);
    assert_eq!(store.get(&id("b")), Ok(todo("b", "y", true)));
    assert_eq!(store.get(&id("a")), Ok(todo("a", "x", false)));
    assert_eq!(store.list().len(), 2);
}

#[test]
fn get_of_an_unknown_id_is_not_found() {
    let store = TodoStore::from_todos(vec![todo("a", "x", false)]);
    assert_eq!(store.get(&id("zzz")), Err(StoreError::NotFound(id("zzz"))));
    assert_eq!(store.get(&id("")), Err(StoreError::NotFound(id(""))));
}

#[test]
fn get_resolves_a_shared_id_to_the_first_todo() {
    let store = TodoStore::from_todos(vec![
        todo("a", "first", false),
        todo("b", "other", false),
        todo("a", "second", true),
    ]);
    assert_eq!(store.get(&id("a")), Ok(todo("a", "first", false)));
}

#[test]
fn update_changes_only_the_title() {
    let mut store = TodoStore::from_todos(vec![
        todo("a", "x", false),
        todo("b", "y", true),
        todo("c", "z", false),
    ]);
    let updated = store.update(&id("b"), id("new"));
    assert_eq!(updated, Ok(todo("b", "new", true)));
    assert_eq!(
        store.list(),
        vec![todo("a", "x", false), todo("b", "new", true), todo("c", "z", false)]
    );
}

#[test]
fn update_of_an_unknown_id_changes_nothing() {
    let given = vec![todo("a", "x", false), todo("b", "y", true)];
    let mut store = TodoStore::from_todos(given.clone());
    assert_eq!(store.update(&id("q"), id("new")), Err(StoreError::NotFound(id("q"))));
    assert_eq!(store.list(), given);
}

#[test]
fn update_retitles_the_first_of_a_shared_id() {
    let mut store = TodoStore::from_todos(vec![todo("a", "first", false), todo("a", "second", true)]);
    assert_eq!(store.update(&id("a"), id("new")), Ok(todo("a", "new", false)));
    assert_eq!(store.list(), vec![todo("a", "new", false), todo("a", "second", true)]);
}

#[test]
fn delete_removes_exactly_one_todo() {
    let mut store = TodoStore::from_todos(vec![
        todo("a", "x", false),
        todo("b", "y", true),
        todo("c", "z", false),
    ]);
    assert_eq!(store.delete(&id("b")), Ok(()));
    assert_eq!(store.list(), vec![todo("a", "x", false), todo("c", "z", false)]);
}

#[test]
fn second_delete_is_not_found() {
    let mut store = TodoStore::from_todos(vec![todo("a", "x", false), todo("b", "y", true)]);
    assert_eq!(store.delete(&id("a")), Ok(()));
    assert_eq!(store.list().len(), 1);
    assert_eq!(store.delete(&id("a")), Err(StoreError::NotFound(id("a"))));
    assert_eq!(store.list(), vec![todo("b", "y", true)]);
}

#[test]
fn get_after_delete_is_not_found() {
    let mut store = TodoStore::new();
    let made = store.create(id("x"));
    assert_eq!(store.delete(&made.id), Ok(()));
    assert_eq!(store.get(&made.id), Err(StoreError::NotFound(made.id.clone())));
    assert_eq!(store.list(), Vec::<Todo>::new());
}

#[test]
fn delete_removes_the_first_of_a_shared_id() {
    let mut store = TodoStore::from_todos(vec![todo("a", "first", false), todo("a", "second", true)]);
    assert_eq!(store.delete(&id("a")), Ok(()));
    assert_eq!(store.list(), vec![todo("a", "second", true)]);
    assert_eq!(store.get(&id("a")), Ok(todo("a", "second", true)));
}

#[test]
fn operations_on_an_empty_store_are_not_found() {
    let mut store = TodoStore::new();
    let unused = uuid::Uuid::new_v4().to_string();
    assert_eq!(store.get(&unused), Err(StoreError::NotFound(unused.clone())));
    assert_eq!(store.update(&unused, id("y")), Err(StoreError::NotFound(unused.clone())));
    assert_eq!(store.delete(&unused), Err(StoreError::NotFound(unused.clone())));
    assert_eq!(store.list(), Vec::<Todo>::new());
}

#[test]
fn not_found_message_names_the_id() {
    assert_eq!(not_found_message(&id("abc")), "Todo with id abc not found");
    assert_eq!(not_found_message(&id("")), "Todo with id  not found");
    assert_eq!(StoreError::NotFound(id("42")).message(), "Todo with id 42 not found");
}

#[test]
fn errors_and_todos_compare_by_content() {
    assert_eq!(StoreError::NotFound(id("a")), StoreError::NotFound(id("a")).clone());
    assert_ne!(StoreError::NotFound(id("a")), StoreError::NotFound(id("b")));
    assert_eq!(todo("a", "x", false), todo("a", "x", false).clone());
    assert_ne!(todo("a", "x", false), todo("a", "x", true));
    assert_ne!(todo("a", "x", false), todo("a", "y", false));
    assert_ne!(todo("a", "x", false), todo("b", "x", false));
}
