use inventory_core::store::InventoryStore;

#[test]
fn new_store_is_empty() {
    let store = InventoryStore::new();
    assert_eq!(store.get_quantity(&"p".to_string()), None);
}

#[test]
fn upsert_creates_then_adds() {
    let mut store = InventoryStore::new();
    let pid = "p".to_string();
    assert!(store.upsert_add(&pid, 4));
    assert_eq!(store.get_quantity(&pid), Some(4));
    assert!(store.upsert_add(&pid, 6));
    assert_eq!(store.get_quantity(&pid), Some(10));
}

#[test]
fn upsert_refuses_negative_amounts_and_overflow() {
    let mut store = InventoryStore::new();
    let pid = "p".to_string();
    assert!(!store.upsert_add(&pid, -1));
    assert_eq!(store.get_quantity(&pid), None);

    assert!(store.upsert_add(&pid, i32::MAX));
    assert!(!store.upsert_add(&pid, 1));
    assert_eq!(store.get_quantity(&pid), Some(i32::MAX));
    assert!(store.upsert_add(&pid, 0));
}

#[test]
fn decrement_takes_effect_only_when_covered() {
    let mut store = InventoryStore::new();
    let pid = "p".to_string();
    assert!(store.upsert_add(&pid, 5));

    assert!(store.decrement(&pid, 3));
    assert_eq!(store.get_quantity(&pid), Some(2));

    // More than the row holds: refused, nothing changes.
    assert!(!store.decrement(&pid, 3));
    assert_eq!(store.get_quantity(&pid), Some(2));

    // Negative amounts are refused: a decrement never adds stock.
    assert!(!store.decrement(&pid, -1));
    assert_eq!(store.get_quantity(&pid), Some(2));

    // A product with no row cannot be decremented.
    assert!(!store.decrement(&"other".to_string(), 1));

    assert!(store.decrement(&pid, 2));
    assert_eq!(store.get_quantity(&pid), Some(0));
}

#[test]
fn committed_transaction_becomes_the_store_state() {
    let mut store = InventoryStore::new();
    let pid = "p".to_string();
    assert!(store.upsert_add(&pid, 9));

    let mut tx = store.begin();
    assert_eq!(tx.get_quantity(&pid), Some(9));
    assert!(tx.decrement(&pid, 4));
    assert_eq!(tx.get_quantity(&pid), Some(5));

    // The store still shows the old state until the commit.
    assert_eq!(store.get_quantity(&pid), Some(9));
    store.commit(tx);
    assert_eq!(store.get_quantity(&pid), Some(5));
}

#[test]
fn rolled_back_transaction_leaves_the_store_untouched() {
    let mut store = InventoryStore::new();
    let pid = "p".to_string();
    assert!(store.upsert_add(&pid, 9));

    let mut tx = store.begin();
    assert!(tx.decrement(&pid, 4));
    tx.rollback();
    assert_eq!(store.get_quantity(&pid), Some(9));
}
