use todo_service::error::ServiceError;
use todo_service::model::{CreateTodo, DeleteResult, Todo, UpdateTodo};
use todo_service::mutation::Mutation;
use todo_service::query::Query;
use todo_service::store::TodoStore;

fn table_with(texts: &[&str]) -> TodoStore {
    let mut store = TodoStore::new();
    for text in texts {
        Mutation::create_todo(&mut store, text.to_string()).unwrap();
    }
    store
}

fn ids_of(rows: &[Todo]) -> Vec<i32> {
    rows.iter().map(|row| row.id).collect()
}

#[test]
fn new_table_is_empty() {
    let store = TodoStore::new();
    assert_eq!(store.len(), 0);
    assert_eq!(store.last_id(), 0);
    assert_eq!(Query::find_all_todos(&store), Vec::<Todo>::new());
    assert_eq!(Query::find_todo_by_id(&store, 1), None);
}

#[test]
fn create_returns_row_with_fresh_id_and_not_completed() {
    let mut store = TodoStore::new();
    let row = Mutation::create_todo(&mut store, "buy milk".to_string()).unwrap();
    assert_eq!(row, Todo { id: 1, text: "buy milk".to_string(), completed: false });
    assert_eq!(store.len(), 1);
    assert_eq!(Query::find_todo_by_id(&store, 1), Some(row));
}

#[test]
fn create_counts_ids_upwards() {
    let mut store = TodoStore::new();
    let first = Mutation::create_todo(&mut store, "a".to_string()).unwrap();
    let second = Mutation::create_todo(&mut store, "b".to_string()).unwrap();
    let third = Mutation::create_todo(&mut store, "".to_string()).unwrap();
    assert_eq!((first.id, second.id, third.id), (1, 2, 3));
    assert_eq!(third.text, "");
    assert_eq!(store.last_id(), 3);
}

#[test]
fn create_keeps_the_rows_that_were_there() {
    let mut store = table_with(&["a", "b"]);
    let before = Query::find_all_todos(&store);
    Mutation::create_todo(&mut store, "c".to_string()).unwrap();
    let after = Query::find_all_todos(&store);
    assert_eq!(after.len(), 3);
    assert_eq!(after[..2], before[..]);
    assert_eq!(after[2], Todo { id: 3, text: "c".to_string(), completed: false });
}

#[test]
fn create_fails_with_storage_error_when_ids_have_run_out() {
    let mut store = TodoStore::starting_after(i32::MAX - 1).unwrap();
    let last = Mutation::create_todo(&mut store, "last".to_string()).unwrap();
    assert_eq!(last.id, i32::MAX);
    let result = Mutation::create_todo(&mut store, "one too many".to_string());
    assert_eq!(result, Err(ServiceError::Storage));
    assert_eq!(store.len(), 1);
    assert_eq!(store.last_id(), i32::MAX);
    assert_eq!(Query::find_all_todos(&store), vec![last]);
}

#[test]
fn starting_after_sets_the_counter() {
    let mut store = TodoStore::starting_after(41).unwrap();
    assert_eq!(store.len(), 0);
    assert_eq!(store.last_id(), 41);
    let row = Mutation::create_todo(&mut store, "x".to_string()).unwrap();
    assert_eq!(row.id, 42);
    assert!(TodoStore::starting_after(0).is_some());
    assert!(TodoStore::starting_after(-1).is_none());
    assert!(TodoStore::starting_after(i32::MIN).is_none());
}

#[test]
fn absent_id_is_not_found_by_any_operation() {
    let mut store = table_with(&["a", "b", "c"]);
    Mutation::delete_todo(&mut store, 2).unwrap();
    let before = Query::find_all_todos(&store);
    for id in [2, 0, -1, 4, i32::MAX, i32::MIN] {
        assert_eq!(Query::find_todo_by_id(&store, id), None);
        let patch = UpdateTodo { text: Some("changed".to_string()), completed: Some(true) };
        assert_eq!(Mutation::update_todo_by_id(&mut store, id, patch), Err(ServiceError::NotFound));
        assert_eq!(Mutation::delete_todo(&mut store, id), Err(ServiceError::NotFound));
        assert_eq!(Query::find_all_todos(&store), before);
    }
    assert_eq!(store.last_id(), 3);
}

#[test]
fn find_by_id_finds_each_row() {
    let store = table_with(&["a", "b", "c", "d", "e"]);
    let texts = ["a", "b", "c", "d", "e"];
    for id in 1..=5 {
        let row = Query::find_todo_by_id(&store, id).unwrap();
        assert_eq!(row.id, id);
        assert_eq!(row.text, texts[(id - 1) as usize]);
        assert!(!row.completed);
    }
}

#[test]
fn find_by_id_finds_rows_around_gaps() {
    let mut store = table_with(&["a", "b", "c", "d", "e", "f", "g"]);
    for id in [1, 4, 5, 7] {
        Mutation::delete_todo(&mut store, id).unwrap();
    }
    for id in [2, 3, 6] {
        assert_eq!(Query::find_todo_by_id(&store, id).unwrap().id, id);
    }
    for id in [0, 1, 4, 5, 7, 8] {
        assert_eq!(Query::find_todo_by_id(&store, id), None);
    }
}

#[test]
fn update_completed_only_keeps_text() {
    let mut store = table_with(&["buy milk"]);
    let patch = UpdateTodo { text: None, completed: Some(true) };
    let row = Mutation::update_todo_by_id(&mut store, 1, patch).unwrap();
    assert_eq!(row, Todo { id: 1, text: "buy milk".to_string(), completed: true });
    assert_eq!(Query::find_todo_by_id(&store, 1), Some(row));
}

#[test]
fn update_text_only_keeps_completed() {
    let mut store = table_with(&["buy milk"]);
    Mutation::update_todo_by_id(&mut store, 1, UpdateTodo { text: None, completed: Some(true) })
        .unwrap();
    let patch = UpdateTodo { text: Some("buy oat milk".to_string()), completed: None };
    let row = Mutation::update_todo_by_id(&mut store, 1, patch).unwrap();
    assert_eq!(row, Todo { id: 1, text: "buy oat milk".to_string(), completed: true });
    assert_eq!(Query::find_todo_by_id(&store, 1), Some(row));
}

#[test]
fn update_with_both_fields_writes_both() {
    let mut store = table_with(&["a", "b"]);
    let patch = UpdateTodo { text: Some("z".to_string()), completed: Some(true) };
    let row = Mutation::update_todo_by_id(&mut store, 2, patch).unwrap();
    assert_eq!(row, Todo { id: 2, text: "z".to_string(), completed: true });
    assert_eq!(
        Query::find_all_todos(&store),
        vec![Todo { id: 1, text: "a".to_string(), completed: false }, row],
    );
}

#[test]
fn update_with_no_field_changes_nothing() {
    let mut store = table_with(&["a", "b"]);
    let before = Query::find_all_todos(&store);
    let row = Mutation::update_todo_by_id(&mut store, 1, UpdateTodo { text: None, completed: None })
        .unwrap();
    assert_eq!(row, before[0]);
    assert_eq!(Query::find_all_todos(&store), before);
}

#[test]
fn update_can_set_completed_back_to_false() {
    let mut store = table_with(&["a"]);
    Mutation::update_todo_by_id(&mut store, 1, UpdateTodo { text: None, completed: Some(true) })
        .unwrap();
    let row = Mutation::update_todo_by_id(
        &mut store,
        1,
        UpdateTodo { text: None, completed: Some(false) },
    )
    .unwrap();
    assert!(!row.completed);
    assert_eq!(row.text, "a");
}

#[test]
fn update_twice_with_the_same_fields_is_update_once() {
    let mut store = table_with(&["a", "b", "c"]);
    let once = Mutation::update_todo_by_id(
        &mut store,
        2,
        UpdateTodo { text: Some("q".to_string()), completed: None },
    )
    .unwrap();
    let after_once = Query::find_all_todos(&store);
    let twice = Mutation::update_todo_by_id(
        &mut store,
        2,
        UpdateTodo { text: Some("q".to_string()), completed: None },
    )
    .unwrap();
    assert_eq!(once, twice);
    assert_eq!(Query::find_all_todos(&store), after_once);
}

#[test]
fn update_leaves_the_other_rows_alone() {
    let mut store = table_with(&["a", "b", "c"]);
    Mutation::update_todo_by_id(
        &mut store,
        2,
        UpdateTodo { text: Some("B".to_string()), completed: Some(true) },
    )
    .unwrap();
    assert_eq!(
        Query::find_all_todos(&store),
        vec![
            Todo { id: 1, text: "a".to_string(), completed: false },
            Todo { id: 2, text: "B".to_string(), completed: true },
            Todo { id: 3, text: "c".to_string(), completed: false },
        ],
    );
    assert_eq!(store.last_id(), 3);
}

#[test]
fn apply_writes_present_fields_over_a_row() {
    let row = Todo { id: 9, text: "old".to_string(), completed: true };
    let patched = UpdateTodo { text: Some("new".to_string()), completed: None }.apply(row);
    assert_eq!(patched, Todo { id: 9, text: "new".to_string(), completed: true });
    let patched = UpdateTodo { text: None, completed: Some(false) }.apply(patched);
    assert_eq!(patched, Todo { id: 9, text: "new".to_string(), completed: false });
    let same = UpdateTodo { text: None, completed: None }.apply(patched.clone());
    assert_eq!(same, patched);
}

#[test]
fn delete_removes_exactly_the_row() {
    let mut store = table_with(&["a", "b", "c"]);
    let done = Mutation::delete_todo(&mut store, 2).unwrap();
    assert_eq!(done, DeleteResult { rows_affected: 1 });
    assert_eq!(
        Query::find_all_todos(&store),
        vec![
            Todo { id: 1, text: "a".to_string(), completed: false },
            Todo { id: 3, text: "c".to_string(), completed: false },
        ],
    );
    assert_eq!(Query::find_todo_by_id(&store, 2), None);
}

#[test]
fn delete_of_first_and_last_row() {
    let mut store = table_with(&["a", "b", "c"]);
    Mutation::delete_todo(&mut store, 1).unwrap();
    assert_eq!(ids_of(&Query::find_all_todos(&store)), vec![2, 3]);
    Mutation::delete_todo(&mut store, 3).unwrap();
    assert_eq!(ids_of(&Query::find_all_todos(&store)), vec![2]);
    Mutation::delete_todo(&mut store, 2).unwrap();
    assert_eq!(store.len(), 0);
}

#[test]
fn find_all_after_creates_and_one_delete() {
    let texts = ["a", "b", "c", "d", "e", "f", "g"];
    for deleted in 1..=7 {
        let mut store = table_with(&texts);
        Mutation::delete_todo(&mut store, deleted).unwrap();
        let rows = Query::find_all_todos(&store);
        assert_eq!(rows.len(), texts.len() - 1);
        assert!(rows.iter().all(|row| row.id != deleted));
        let expected: Vec<i32> = (1..=7).filter(|id| *id != deleted).collect();
        assert_eq!(ids_of(&rows), expected);
    }
}

#[test]
fn find_all_is_in_ascending_order_of_id() {
    let mut store = table_with(&["a", "b", "c", "d", "e", "f"]);
    Mutation::delete_todo(&mut store, 3).unwrap();
    Mutation::create_todo(&mut store, "g".to_string()).unwrap();
    Mutation::delete_todo(&mut store, 1).unwrap();
    Mutation::create_todo(&mut store, "h".to_string()).unwrap();
    assert_eq!(ids_of(&Query::find_all_todos(&store)), vec![2, 4, 5, 6, 7, 8]);
}

#[test]
fn delete_twice_is_not_found_and_changes_nothing() {
    let mut store = table_with(&["a", "b", "c"]);
    assert_eq!(Mutation::delete_todo(&mut store, 2), Ok(DeleteResult { rows_affected: 1 }));
    let after_first = Query::find_all_todos(&store);
    let last_id = store.last_id();
    assert_eq!(Mutation::delete_todo(&mut store, 2), Err(ServiceError::NotFound));
    assert_eq!(Query::find_all_todos(&store), after_first);
    assert_eq!(store.last_id(), last_id);
    assert_eq!(store.len(), 2);
}

#[test]
fn deleted_id_is_not_given_out_again() {
    let mut store = table_with(&["a", "b"]);
    Mutation::delete_todo(&mut store, 2).unwrap();
    let row = Mutation::create_todo(&mut store, "c".to_string()).unwrap();
    assert_eq!(row.id, 3);
    Mutation::delete_todo(&mut store, 1).unwrap();
    Mutation::delete_todo(&mut store, 3).unwrap();
    let row = Mutation::create_todo(&mut store, "d".to_string()).unwrap();
    assert_eq!(row.id, 4);
    assert_eq!(Query::find_todo_by_id(&store, 2), None);
}

#[test]
fn delete_all_returns_the_count_and_keeps_the_counter() {
    let mut store = table_with(&["a", "b", "c"]);
    Mutation::delete_todo(&mut store, 1).unwrap();
    let done = Mutation::delete_all_todos(&mut store);
    assert_eq!(done, DeleteResult { rows_affected: 2 });
    assert_eq!(store.len(), 0);
    assert_eq!(Query::find_all_todos(&store), Vec::<Todo>::new());
    assert_eq!(store.last_id(), 3);
    let row = Mutation::create_todo(&mut store, "d".to_string()).unwrap();
    assert_eq!(row.id, 4);
}

#[test]
fn delete_all_on_an_empty_table_removes_nothing() {
    let mut store = TodoStore::new();
    assert_eq!(Mutation::delete_all_todos(&mut store), DeleteResult { rows_affected: 0 });
    assert_eq!(store.len(), 0);
    assert_eq!(store.last_id(), 0);
}

#[test]
fn draft_of_a_create_request() {
    let row = CreateTodo { text: "buy milk".to_string() }.draft();
    assert_eq!(row, Todo { id: 0, text: "buy milk".to_string(), completed: false });
}

#[test]
fn clone_of_a_row_is_equal_to_it() {
    let row = Todo { id: 5, text: "water plants".to_string(), completed: true };
    assert_eq!(row.clone(), row);
}
