use todolist::error::TodoError;
use todolist::state::{Todo, TodoList, MAX_NUMBER_OF_ITEMS};

#[test]
fn add_appends_one_task_at_the_end() {
    let mut store = TodoList::new();
    store.add("first".to_string(), 3).unwrap();
    let before = store.list().len();

    store.add("x".to_string(), 8).unwrap();

    let res = store.list();
    assert_eq!(before + 1, res.len());
    assert_eq!("first", res[0].title);
    let last = &res[res.len() - 1];
    assert_eq!("x", last.title);
    assert_eq!(false, last.is_done);
    assert_eq!(8, last.created_block);
    assert_eq!(None, last.updated_block);
}

#[test]
fn empty_title_leaves_list_unchanged() {
    let mut store = TodoList::new();
    store.add("keep me".to_string(), 4).unwrap();

    let err = store.add("".to_string(), 9).unwrap_err();
    match err {
        TodoError::InvalidInput { val } => assert_eq!("Empty content", val),
        e => panic!("unexpected error: {:?}", e),
    }

    let res = store.list();
    assert_eq!(1, res.len());
    assert_eq!("keep me", res[0].title);
    assert_eq!(false, res[0].is_done);
    assert_eq!(4, res[0].created_block);
    assert_eq!(None, res[0].updated_block);
}

#[test]
fn toggle_flips_and_stamps() {
    let mut store = TodoList::new();
    store.add("task".to_string(), 1).unwrap();

    store.toggle(1, 5).unwrap();
    assert_eq!(true, store.list()[0].is_done);
    assert_eq!(Some(5), store.list()[0].updated_block);

    store.toggle(1, 9).unwrap();
    assert_eq!(false, store.list()[0].is_done);
    assert_eq!(Some(9), store.list()[0].updated_block);
    assert_eq!(1, store.list()[0].created_block);
}

#[test]
fn out_of_range_ids_are_rejected() {
    let mut store = TodoList::new();
    store.add("a".to_string(), 1).unwrap();
    store.add("b".to_string(), 2).unwrap();
    let n = store.list().len() as u32;

    assert!(matches!(
        store.toggle(0, 9).unwrap_err(),
        TodoError::InvalidInput { .. }
    ));
    assert!(matches!(
        store.remove(0).unwrap_err(),
        TodoError::InvalidInput { .. }
    ));
    assert!(matches!(store.toggle(n + 1, 9).unwrap_err(), TodoError::NotFound));
    assert!(matches!(store.remove(n + 1).unwrap_err(), TodoError::NotFound));
    assert_eq!(2, store.list().len());
}

#[test]
fn removal_reindexes_later_tasks() {
    let mut store = TodoList::new();
    store.add("A".to_string(), 1).unwrap();
    store.add("B".to_string(), 2).unwrap();
    store.add("C".to_string(), 3).unwrap();

    store.remove(2).unwrap();
    let res = store.list();
    assert_eq!(2, res.len());
    assert_eq!("A", res[0].title);
    assert_eq!("C", res[1].title);

    // position 2 now addresses C, not B
    store.toggle(2, 50).unwrap();
    let res = store.list();
    assert_eq!("C", res[1].title);
    assert_eq!(true, res[1].is_done);
    assert_eq!(Some(50), res[1].updated_block);
    assert_eq!(false, res[0].is_done);
}

#[test]
fn capacity_boundary() {
    let mut store = TodoList::new();
    let mut i: u64 = 0;
    while (store.list().len() as usize) < MAX_NUMBER_OF_ITEMS {
        store.add(format!("task {}", i), i).unwrap();
        i += 1;
    }
    assert_eq!(MAX_NUMBER_OF_ITEMS, store.list().len());

    // the bound test rejects only once the length has exceeded the bound,
    // so one more task still gets in
    store.add("last one in".to_string(), i).unwrap();
    assert_eq!(MAX_NUMBER_OF_ITEMS + 1, store.list().len());

    let err = store.add("one too many".to_string(), i + 1).unwrap_err();
    match err {
        TodoError::CapacityExceeded { val } => assert_eq!("List is full", val),
        e => panic!("unexpected error: {:?}", e),
    }
    assert_eq!(MAX_NUMBER_OF_ITEMS + 1, store.list().len());
}

#[test]
fn full_scenario() {
    let mut store = TodoList::new();
    store.add("buy milk".to_string(), 100).unwrap();
    store.add("call mom".to_string(), 105).unwrap();
    store.toggle(2, 110).unwrap();
    store.remove(1).unwrap();

    let expected = vec![Todo {
        title: "call mom".to_string(),
        is_done: true,
        created_block: 105,
        updated_block: Some(110),
    }];
    assert_eq!(expected, *store.list());
}
