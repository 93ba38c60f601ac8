use todo_store::counter::increment;
use todo_store::error::TodoError;
use todo_store::item::Item;
use todo_store::routes::todos;
use todo_store::store::TodoList;

fn titles(store: &TodoList) -> Vec<(String, bool)> {
    store.entries()
}

#[test]
fn add_then_list_holds_the_item() {
    let mut store = TodoList::new();
    let id = store.add("buy milk".to_string(), true).unwrap();
    assert_eq!(id, 0);
    let id2 = store.add("walk".to_string(), false).unwrap();
    assert_eq!(id2, 1);
    let items = store.list();
    assert_eq!(items.len(), 2);
    assert_eq!(items[0], Item { index: 0, title: "buy milk".to_string(), done: true });
    assert_eq!(items[1], Item { index: 1, title: "walk".to_string(), done: false });
}

#[test]
fn add_accepts_empty_and_duplicate_titles() {
    let mut store = TodoList::new();
    store.add(String::new(), false).unwrap();
    store.add(String::new(), false).unwrap();
    assert_eq!(titles(&store), vec![(String::new(), false), (String::new(), false)]);
}

#[test]
fn toggle_flips_one_and_twice_restores() {
    let mut store = TodoList::new();
    store.clear();
    let before = store.list();
    store.toggle(1).unwrap();
    let after = store.list();
    assert_eq!(after[0], before[0]);
    assert_eq!(after[1].done, true);
    assert_eq!(after[1].title, "hello two");
    assert_eq!(after[2], before[2]);
    store.toggle(1).unwrap();
    assert_eq!(store.list(), before);
}

#[test]
fn toggle_unknown_id_is_not_found() {
    let mut store = TodoList::new();
    assert_eq!(store.toggle(0), Err(TodoError::NotFound));
    store.clear();
    assert_eq!(store.toggle(7), Err(TodoError::NotFound));
    assert_eq!(store.toggle(-1), Err(TodoError::NotFound));
    assert!(store.list().iter().all(|it| !it.done));
}

#[test]
fn clear_gives_the_seed_set_whatever_came_before() {
    let mut store = TodoList::new();
    store.add("x".to_string(), true).unwrap();
    store.add("y".to_string(), true).unwrap();
    store.clear();
    let expected = vec![
        Item { index: 0, title: "hello one".to_string(), done: false },
        Item { index: 1, title: "hello two".to_string(), done: false },
        Item { index: 2, title: "hello three".to_string(), done: false },
    ];
    assert_eq!(store.list(), expected);
    let mut empty = TodoList::new();
    empty.clear();
    assert_eq!(empty.list(), expected);
    assert_eq!(empty.add("next".to_string(), false), Ok(3));
}

#[test]
fn delete_removes_exactly_one() {
    let mut store = TodoList::new();
    store.clear();
    store.delete(1).unwrap();
    let items = store.list();
    assert_eq!(items.len(), 2);
    assert!(items.iter().all(|it| it.index != 1));
    assert_eq!(items[0].title, "hello one");
    assert_eq!(items[1].title, "hello three");
    assert_eq!(store.delete(1), Err(TodoError::NotFound));
    assert_eq!(store.list().len(), 2);
}

#[test]
fn ids_are_not_reused_after_delete() {
    let mut store = TodoList::new();
    store.clear();
    store.delete(2).unwrap();
    assert_eq!(store.add("four".to_string(), false), Ok(3));
}

#[test]
fn increment_n_times_from_absent() {
    let mut stored: Option<i32> = None;
    for _ in 0..5 {
        stored = Some(increment(stored).unwrap());
    }
    assert_eq!(stored, Some(5));
    assert_eq!(increment(None), Ok(1));
    assert_eq!(increment(Some(41)), Ok(42));
}

#[test]
fn increment_at_top_overflows() {
    assert_eq!(increment(Some(i32::MAX)), Err(TodoError::Overflow));
}

#[test]
fn entries_round_trip() {
    let entries = vec![
        ("a".to_string(), true),
        ("b".to_string(), false),
        ("a".to_string(), false),
    ];
    let store = TodoList::from_entries(&entries);
    assert_eq!(store.entries(), entries);
    let items = store.list();
    assert_eq!(items[2], Item { index: 2, title: "a".to_string(), done: false });
    assert_eq!(TodoList::from_entries(&Vec::new()).entries(), Vec::new());
}

#[test]
fn positional_toggle_after_load() {
    let entries = vec![("a".to_string(), false), ("b".to_string(), false)];
    let mut store = TodoList::from_entries(&entries);
    store.toggle(1).unwrap();
    assert_eq!(store.entries(), vec![("a".to_string(), false), ("b".to_string(), true)]);
}

#[test]
fn service_handlers_redirect_to_list() {
    let mut store = TodoList::new();
    let page = todos::clear(&mut store);
    assert!(page.redirect_to_index);
    assert_eq!(page.title, "ToDo List");
    assert_eq!(page.list.len(), 3);
    let page = todos::add_todo(&mut store, "new".to_string(), true).unwrap();
    assert_eq!(page.list.len(), 4);
    assert_eq!(page.list[3].title, "new");
    let page = todos::toggle(&mut store, 0).unwrap();
    assert!(page.list[0].done);
    let page = todos::delete(&mut store, 3).unwrap();
    assert_eq!(page.list.len(), 3);
    assert!(matches!(todos::delete(&mut store, 3), Err(TodoError::NotFound)));
    assert!(matches!(todos::toggle(&mut store, 9), Err(TodoError::NotFound)));
    let view = todos::todo(&store);
    assert!(!view.redirect_to_index);
    assert!(!view.not_found);
    assert_eq!(view.list.len(), 3);
    assert!(todos::redirect(&store).redirect_to_index);
}

#[test]
fn error_messages() {
    assert_eq!(TodoError::NotFound.message(), "not found");
    assert_eq!(TodoError::MissingParameter.message(), "missing parameter");
}
