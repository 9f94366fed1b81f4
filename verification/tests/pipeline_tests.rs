use inventory_core::events::ReservationOutcome;
use inventory_core::pipeline::{process_message, ProcessedMessage};
use inventory_core::store::InventoryStore;

const P1: &str = "11111111-1111-4111-8111-111111111111";
const P2: &str = "22222222-2222-4222-8222-222222222222";
const P3: &str = "33333333-3333-4333-8333-333333333333";
const ORDER: &str = "aaaaaaaa-aaaa-4aaa-8aaa-aaaaaaaaaaaa";
const USER: &str = "bbbbbbbb-bbbb-4bbb-8bbb-bbbbbbbbbbbb";

fn checkout_payload(product_id: &str, quantity: i32) -> String {
    format!(
        "{{\"type\":\"CheckoutInitiatedEvent\",\"orderId\":\"{}\",\"userId\":\"{}\",\"items\":[{{\"productId\":\"{}\",\"quantity\":{}}}]}}",
        ORDER, USER, product_id, quantity
    )
}

fn product_created_payload(product_id: &str, initial_quantity: i32) -> String {
    format!(
        "{{\"type\":\"ProductCreatedEvent\",\"productId\":\"{}\",\"sku\":\"SKU-1\",\"name\":\"Widget\",\"price\":9.99,\"initialQuantity\":{}}}",
        product_id, initial_quantity
    )
}

#[test]
fn test_process_checkout_initiated_event_success() {
    let mut store = InventoryStore::new();
    assert!(store.upsert_add(&P1.to_string(), 10));

    let payload = checkout_payload(P1, 5);
    let result = process_message(&mut store, payload.as_bytes());

    assert_eq!(store.get_quantity(&P1.to_string()), Some(5));
    match result {
        ProcessedMessage::Done(Some(outcome)) => {
            assert!(outcome.is_reserved());
            assert_eq!(outcome.order_id().as_str(), ORDER);
        }
        _ => panic!("expected a reservation outcome"),
    }
}

#[test]
fn test_process_checkout_initiated_event_failure_insufficient_inventory() {
    let mut store = InventoryStore::new();
    assert!(store.upsert_add(&P2.to_string(), 2));

    let payload = checkout_payload(P2, 5);
    let result = process_message(&mut store, payload.as_bytes());

    assert_eq!(store.get_quantity(&P2.to_string()), Some(2));
    match result {
        ProcessedMessage::Done(Some(ReservationOutcome::Failed { order_id, user_id, reason, .. })) => {
            assert_eq!(order_id, ORDER);
            assert_eq!(user_id, USER);
            assert_eq!(reason, "Insufficient inventory");
        }
        _ => panic!("expected a failed outcome"),
    }
}

#[test]
fn checkout_of_unknown_product_fails_with_insufficient_inventory() {
    let mut store = InventoryStore::new();
    assert!(store.upsert_add(&P1.to_string(), 10));

    let payload = checkout_payload(P2, 1);
    let result = process_message(&mut store, payload.as_bytes());

    assert_eq!(store.get_quantity(&P1.to_string()), Some(10));
    assert_eq!(store.get_quantity(&P2.to_string()), None);
    match result {
        ProcessedMessage::Done(Some(ReservationOutcome::Failed { reason, .. })) => {
            assert_eq!(reason, "Insufficient inventory");
        }
        _ => panic!("expected a failed outcome"),
    }
}

#[test]
fn product_created_event_creates_stock_and_replay_doubles_it() {
    let mut store = InventoryStore::new();

    let payload = product_created_payload(P3, 20);
    let first = process_message(&mut store, payload.as_bytes());
    assert_eq!(store.get_quantity(&P3.to_string()), Some(20));
    assert!(matches!(first, ProcessedMessage::Done(None)));

    // The additive upsert is not idempotent: replaying the identical event
    // doubles the stock.
    let second = process_message(&mut store, payload.as_bytes());
    assert_eq!(store.get_quantity(&P3.to_string()), Some(40));
    assert!(matches!(second, ProcessedMessage::Done(None)));
}

#[test]
fn product_created_event_adds_to_existing_stock() {
    let mut store = InventoryStore::new();
    assert!(store.upsert_add(&P1.to_string(), 7));

    let payload = product_created_payload(P1, 3);
    process_message(&mut store, payload.as_bytes());
    assert_eq!(store.get_quantity(&P1.to_string()), Some(10));
}

#[test]
fn malformed_payload_is_dropped_without_mutation() {
    let mut store = InventoryStore::new();
    assert!(store.upsert_add(&P1.to_string(), 10));

    let result = process_message(&mut store, b"this is not json");
    assert!(matches!(result, ProcessedMessage::Dropped));
    assert_eq!(store.get_quantity(&P1.to_string()), Some(10));
}

#[test]
fn unrecognized_event_type_is_dropped_without_mutation() {
    let mut store = InventoryStore::new();
    assert!(store.upsert_add(&P1.to_string(), 10));

    let result = process_message(
        &mut store,
        b"{\"type\":\"OrderShippedEvent\",\"orderId\":\"x\"}",
    );
    assert!(matches!(result, ProcessedMessage::Dropped));
    assert_eq!(store.get_quantity(&P1.to_string()), Some(10));
}

#[test]
fn checkout_with_invalid_structure_is_dropped_without_mutation() {
    let mut store = InventoryStore::new();
    assert!(store.upsert_add(&P1.to_string(), 10));

    // Recognized type, but `items` is not an array.
    let payload = format!(
        "{{\"type\":\"CheckoutInitiatedEvent\",\"orderId\":\"{}\",\"userId\":\"{}\",\"items\":5}}",
        ORDER, USER
    );
    let result = process_message(&mut store, payload.as_bytes());
    assert!(matches!(result, ProcessedMessage::Dropped));
    assert_eq!(store.get_quantity(&P1.to_string()), Some(10));
}

#[test]
fn short_circuit_leaves_all_items_untouched() {
    let mut store = InventoryStore::new();
    assert!(store.upsert_add(&P1.to_string(), 10));
    assert!(store.upsert_add(&P2.to_string(), 2));
    assert!(store.upsert_add(&P3.to_string(), 10));

    // A: satisfiable, B: insufficient, C: satisfiable.
    let payload = format!(
        "{{\"type\":\"CheckoutInitiatedEvent\",\"orderId\":\"{}\",\"userId\":\"{}\",\"items\":[\
         {{\"productId\":\"{}\",\"quantity\":5}},\
         {{\"productId\":\"{}\",\"quantity\":5}},\
         {{\"productId\":\"{}\",\"quantity\":5}}]}}",
        ORDER, USER, P1, P2, P3
    );
    let result = process_message(&mut store, payload.as_bytes());

    assert_eq!(store.get_quantity(&P1.to_string()), Some(10));
    assert_eq!(store.get_quantity(&P2.to_string()), Some(2));
    assert_eq!(store.get_quantity(&P3.to_string()), Some(10));
    match result {
        ProcessedMessage::Done(Some(ReservationOutcome::Failed { reason, .. })) => {
            assert_eq!(reason, "Insufficient inventory");
        }
        _ => panic!("expected a failed outcome"),
    }
}

#[test]
fn multi_item_checkout_decrements_every_product() {
    let mut store = InventoryStore::new();
    assert!(store.upsert_add(&P1.to_string(), 10));
    assert!(store.upsert_add(&P2.to_string(), 8));

    let payload = format!(
        "{{\"type\":\"CheckoutInitiatedEvent\",\"orderId\":\"{}\",\"userId\":\"{}\",\"items\":[\
         {{\"productId\":\"{}\",\"quantity\":4}},\
         {{\"productId\":\"{}\",\"quantity\":8}}]}}",
        ORDER, USER, P1, P2
    );
    let result = process_message(&mut store, payload.as_bytes());

    assert_eq!(store.get_quantity(&P1.to_string()), Some(6));
    assert_eq!(store.get_quantity(&P2.to_string()), Some(0));
    match result {
        ProcessedMessage::Done(Some(outcome)) => assert!(outcome.is_reserved()),
        _ => panic!("expected a reservation outcome"),
    }
}

#[test]
fn duplicate_line_items_overdrawing_stock_fail_without_mutation() {
    let mut store = InventoryStore::new();
    assert!(store.upsert_add(&P1.to_string(), 10));

    // Each line alone passes the check phase (5 <= 10, 6 <= 10) but the
    // second decrement would take the row below zero; the guarded update
    // refuses it and the transaction is rolled back.
    let payload = format!(
        "{{\"type\":\"CheckoutInitiatedEvent\",\"orderId\":\"{}\",\"userId\":\"{}\",\"items\":[\
         {{\"productId\":\"{}\",\"quantity\":5}},\
         {{\"productId\":\"{}\",\"quantity\":6}}]}}",
        ORDER, USER, P1, P1
    );
    let result = process_message(&mut store, payload.as_bytes());

    assert_eq!(store.get_quantity(&P1.to_string()), Some(10));
    match result {
        ProcessedMessage::Done(Some(ReservationOutcome::Failed { reason, .. })) => {
            assert_eq!(
                reason,
                format!(
                    "Failed to update inventory for product {}: conditional stock update affected no row",
                    P1
                )
            );
        }
        _ => panic!("expected a failed outcome"),
    }
}
