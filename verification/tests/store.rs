use item_store::item::Item;
use item_store::store::{Operation, Store};

fn item(id: usize, name: &str) -> Item {
    Item { id, name: name.to_string() }
}

/// The collection as plain pairs, with the operations written out directly.
fn model_apply(model: &mut Vec<(usize, String)>, op: &Operation) -> bool {
    match op {
        Operation::Create(it) => {
            model.push((it.id, it.name.clone()));
            true
        }
        Operation::Update { id, name } => {
            for entry in model.iter_mut() {
                if entry.0 == *id {
                    entry.1 = name.clone();
                    return true;
                }
            }
            false
        }
        Operation::Delete { id } => {
            let before = model.len();
            model.retain(|entry| entry.0 != *id);
            model.len() != before
        }
    }
}

fn as_pairs(items: &[Item]) -> Vec<(usize, String)> {
    items.iter().map(|it| (it.id, it.name.clone())).collect()
}

fn copy_op(op: &Operation) -> Operation {
    match op {
        Operation::Create(it) => Operation::Create(it.clone()),
        Operation::Update { id, name } => Operation::Update { id: *id, name: name.clone() },
        Operation::Delete { id } => Operation::Delete { id: *id },
    }
}

fn sample_ops() -> Vec<Operation> {
    vec![
        Operation::Delete { id: 1 },
        Operation::Create(item(1, "a")),
        Operation::Create(item(2, "b")),
        Operation::Create(item(1, "c")),
        Operation::Update { id: 3, name: "x".to_string() },
        Operation::Update { id: 1, name: "d".to_string() },
        Operation::Create(item(3, "e")),
        Operation::Create(item(1, "f")),
        Operation::Update { id: 3, name: "g".to_string() },
        Operation::Delete { id: 1 },
        Operation::Delete { id: 1 },
        Operation::Create(item(1, "h")),
        Operation::Update { id: 1, name: "i".to_string() },
    ]
}

#[test]
fn new_store_is_empty() {
    let store = Store::new();
    assert_eq!(store.list(), Vec::<Item>::new());
    assert!(store.items().is_empty());
}

#[test]
fn from_items_keeps_the_order() {
    let store = Store::from_items(vec![item(3, "c"), item(1, "a"), item(2, "b")]);
    assert_eq!(store.list(), vec![item(3, "c"), item(1, "a"), item(2, "b")]);
}

#[test]
fn create_appends_at_the_end() {
    let mut store = Store::new();
    store.create(item(2, "b"));
    store.create(item(1, "a"));
    store.create(item(3, "c"));
    assert_eq!(store.list(), vec![item(2, "b"), item(1, "a"), item(3, "c")]);
}

#[test]
fn create_accepts_duplicate_ids() {
    let mut store = Store::new();
    store.create(item(5, "first"));
    store.create(item(5, "second"));
    assert_eq!(store.list(), vec![item(5, "first"), item(5, "second")]);
}

#[test]
fn create_accepts_an_identical_record() {
    let mut store = Store::new();
    store.create(item(5, "same"));
    store.create(item(5, "same"));
    assert_eq!(store.list().len(), 2);
}

#[test]
fn list_is_a_snapshot() {
    let mut store = Store::new();
    store.create(item(1, "a"));
    let snapshot = store.list();
    store.create(item(2, "b"));
    assert!(store.update(1, "z".to_string()));
    assert_eq!(snapshot, vec![item(1, "a")]);
    assert_eq!(store.list(), vec![item(1, "z"), item(2, "b")]);
}

#[test]
fn items_shows_the_collection_itself() {
    let mut store = Store::new();
    store.create(item(1, "a"));
    store.create(item(2, "b"));
    assert_eq!(store.items(), &vec![item(1, "a"), item(2, "b")]);
}

#[test]
fn update_renames_the_record() {
    let mut store = Store::from_items(vec![item(1, "a"), item(2, "b")]);
    assert!(store.update(2, "bb".to_string()));
    assert_eq!(store.list(), vec![item(1, "a"), item(2, "bb")]);
}

#[test]
fn update_changes_only_the_first_of_duplicates() {
    let mut store =
        Store::from_items(vec![item(9, "x"), item(5, "one"), item(5, "two"), item(5, "three")]);
    assert!(store.update(5, "new".to_string()));
    assert_eq!(
        store.list(),
        vec![item(9, "x"), item(5, "new"), item(5, "two"), item(5, "three")]
    );
}

#[test]
fn update_of_a_missing_id_changes_nothing() {
    let mut store = Store::from_items(vec![item(1, "a"), item(2, "b")]);
    assert!(!store.update(3, "c".to_string()));
    assert_eq!(store.list(), vec![item(1, "a"), item(2, "b")]);
}

#[test]
fn update_on_an_empty_store_finds_nothing() {
    let mut store = Store::new();
    assert!(!store.update(0, "a".to_string()));
    assert_eq!(store.list(), Vec::<Item>::new());
}

#[test]
fn update_keeps_the_id() {
    let mut store = Store::from_items(vec![item(7, "a")]);
    assert!(store.update(7, "b".to_string()));
    assert_eq!(store.list()[0].id, 7);
}

#[test]
fn update_accepts_an_empty_and_a_long_name() {
    let mut store = Store::from_items(vec![item(1, "a")]);
    assert!(store.update(1, String::new()));
    assert_eq!(store.list(), vec![item(1, "")]);
    let long = "n".repeat(100_000);
    assert!(store.update(1, long.clone()));
    assert_eq!(store.list()[0].name, long);
}

#[test]
fn delete_removes_every_record_with_the_id() {
    let mut store = Store::from_items(vec![
        item(5, "one"),
        item(1, "a"),
        item(5, "two"),
        item(2, "b"),
        item(5, "three"),
    ]);
    assert!(store.delete(5));
    assert_eq!(store.list(), vec![item(1, "a"), item(2, "b")]);
}

#[test]
fn delete_keeps_the_order_of_the_others() {
    let mut store =
        Store::from_items(vec![item(4, "d"), item(3, "c"), item(9, "x"), item(2, "b"), item(1, "a")]);
    assert!(store.delete(9));
    assert_eq!(store.list(), vec![item(4, "d"), item(3, "c"), item(2, "b"), item(1, "a")]);
}

#[test]
fn delete_of_a_missing_id_changes_nothing() {
    let mut store = Store::from_items(vec![item(1, "a"), item(2, "b")]);
    assert!(!store.delete(3));
    assert_eq!(store.list(), vec![item(1, "a"), item(2, "b")]);
}

#[test]
fn delete_can_empty_the_store() {
    let mut store = Store::from_items(vec![item(1, "a"), item(1, "b")]);
    assert!(store.delete(1));
    assert_eq!(store.list(), Vec::<Item>::new());
}

#[test]
fn second_delete_finds_nothing() {
    let mut store = Store::from_items(vec![item(1, "a"), item(2, "b"), item(1, "c")]);
    assert!(store.delete(1));
    let after_first = store.list();
    assert!(!store.delete(1));
    assert_eq!(store.list(), after_first);
    assert_eq!(after_first, vec![item(2, "b")]);
}

#[test]
fn smallest_and_largest_id_are_ordinary() {
    let mut store = Store::new();
    store.create(item(0, "zero"));
    store.create(item(usize::MAX, "max"));
    assert!(store.update(usize::MAX, "top".to_string()));
    assert!(store.delete(0));
    assert_eq!(store.list(), vec![item(usize::MAX, "top")]);
}

#[test]
fn names_may_hold_any_text() {
    let mut store = Store::new();
    store.create(item(1, "näme \"quoted\" \n 日本語"));
    assert_eq!(store.list()[0].name, "näme \"quoted\" \n 日本語");
}

#[test]
fn clone_of_an_item_is_equal() {
    let source = item(3, "c");
    let copy = source.clone();
    assert_eq!(copy, source);
    assert_eq!(copy.id, 3);
    assert_eq!(copy.name, "c");
}

#[test]
fn apply_reports_whether_the_operation_took_effect() {
    let mut store = Store::new();
    assert!(!store.apply(Operation::Update { id: 1, name: "a".to_string() }));
    assert!(!store.apply(Operation::Delete { id: 1 }));
    assert!(store.apply(Operation::Create(item(1, "a"))));
    assert!(store.apply(Operation::Update { id: 1, name: "b".to_string() }));
    assert_eq!(store.list(), vec![item(1, "b")]);
    assert!(store.apply(Operation::Delete { id: 1 }));
    assert_eq!(store.list(), Vec::<Item>::new());
}

#[test]
fn replay_of_nothing_changes_nothing() {
    let mut store = Store::from_items(vec![item(1, "a")]);
    store.replay(Vec::new());
    assert_eq!(store.list(), vec![item(1, "a")]);
}

#[test]
fn replay_gives_the_expected_collection() {
    let mut store = Store::new();
    store.replay(sample_ops());
    assert_eq!(store.list(), vec![item(2, "b"), item(3, "g"), item(1, "i")]);
}

#[test]
fn replay_agrees_with_the_model_on_every_prefix() {
    let ops = sample_ops();
    for n in 0..=ops.len() {
        let mut model: Vec<(usize, String)> = Vec::new();
        for op in &ops[..n] {
            model_apply(&mut model, op);
        }
        let mut store = Store::new();
        store.replay(ops[..n].iter().map(copy_op).collect());
        assert_eq!(as_pairs(&store.list()), model);
    }
}

#[test]
fn apply_agrees_with_the_model_step_by_step() {
    let mut model: Vec<(usize, String)> = vec![(1, "p".to_string()), (1, "q".to_string())];
    let mut store = Store::from_items(vec![item(1, "p"), item(1, "q")]);
    for op in sample_ops() {
        let expected = model_apply(&mut model, &op);
        assert_eq!(store.apply(op), expected);
        assert_eq!(as_pairs(&store.list()), model);
    }
}

#[test]
fn replay_in_two_parts_is_replay_of_the_whole() {
    let ops = sample_ops();
    let mut whole = Store::new();
    whole.replay(sample_ops());
    let mut parts = Store::new();
    parts.replay(ops[..5].iter().map(copy_op).collect());
    parts.replay(ops[5..].iter().map(copy_op).collect());
    assert_eq!(parts.list(), whole.list());
}
