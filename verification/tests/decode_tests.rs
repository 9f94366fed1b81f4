use inventory_core::decode::decode_envelope;
use inventory_core::events::DecodedEvent;

const PID: &str = "550e8400-e29b-41d4-a716-446655440000";

#[test]
fn decodes_a_product_created_event() {
    let payload = format!(
        "{{\"type\":\"ProductCreatedEvent\",\"productId\":\"{}\",\"sku\":\"SKU-7\",\"name\":\"Gadget\",\"price\":19.5,\"initialQuantity\":12}}",
        PID
    );
    match decode_envelope(payload.as_bytes()) {
        DecodedEvent::ProductCreated(e) => {
            assert_eq!(e.product_id, PID);
            assert_eq!(e.sku, "SKU-7");
            assert_eq!(e.name, "Gadget");
            assert_eq!(e.initial_quantity, 12);
        }
        _ => panic!("expected a product-created event"),
    }
}

#[test]
fn decodes_a_checkout_initiated_event() {
    let payload = format!(
        "{{\"type\":\"CheckoutInitiatedEvent\",\"orderId\":\"{}\",\"userId\":\"{}\",\"items\":[\
         {{\"productId\":\"{}\",\"quantity\":3}}]}}",
        PID, PID, PID
    );
    match decode_envelope(payload.as_bytes()) {
        DecodedEvent::Checkout(c) => {
            assert_eq!(c.order_id, PID);
            assert_eq!(c.user_id, PID);
            assert_eq!(c.items.len(), 1);
            assert_eq!(c.items[0].product_id, PID);
            assert_eq!(c.items[0].quantity, 3);
        }
        _ => panic!("expected a checkout event"),
    }
}

#[test]
fn identifiers_are_brought_to_canonical_form() {
    // Uppercase and unhyphenated spellings both canonicalize to the
    // hyphenated lowercase form.
    let payload = format!(
        "{{\"type\":\"ProductCreatedEvent\",\"productId\":\"{}\",\"sku\":\"S\",\"name\":\"N\",\"price\":1,\"initialQuantity\":1}}",
        "550E8400-E29B-41D4-A716-446655440000"
    );
    match decode_envelope(payload.as_bytes()) {
        DecodedEvent::ProductCreated(e) => assert_eq!(e.product_id, PID),
        _ => panic!("expected a product-created event"),
    }

    let payload = format!(
        "{{\"type\":\"ProductCreatedEvent\",\"productId\":\"{}\",\"sku\":\"S\",\"name\":\"N\",\"price\":1,\"initialQuantity\":1}}",
        "550e8400e29b41d4a716446655440000"
    );
    match decode_envelope(payload.as_bytes()) {
        DecodedEvent::ProductCreated(e) => assert_eq!(e.product_id, PID),
        _ => panic!("expected a product-created event"),
    }
}

#[test]
fn unparseable_payload_is_malformed() {
    assert!(matches!(decode_envelope(b"{{{"), DecodedEvent::Malformed));
    assert!(matches!(decode_envelope(b""), DecodedEvent::Malformed));
}

#[test]
fn unknown_type_is_unrecognized_with_the_discriminator() {
    match decode_envelope(b"{\"type\":\"PaymentSettledEvent\"}") {
        DecodedEvent::Unrecognized(t) => assert_eq!(t, "PaymentSettledEvent"),
        _ => panic!("expected an unrecognized event"),
    }
}

#[test]
fn missing_or_non_string_type_is_unrecognized_with_empty_text() {
    match decode_envelope(b"{\"kind\":\"ProductCreatedEvent\"}") {
        DecodedEvent::Unrecognized(t) => assert_eq!(t, ""),
        _ => panic!("expected an unrecognized event"),
    }
    match decode_envelope(b"{\"type\":7}") {
        DecodedEvent::Unrecognized(t) => assert_eq!(t, ""),
        _ => panic!("expected an unrecognized event"),
    }
}

#[test]
fn product_created_with_bad_fields_is_malformed() {
    // Product identifier not a UUID.
    let bad_id = "{\"type\":\"ProductCreatedEvent\",\"productId\":\"not-a-uuid\",\"sku\":\"S\",\"name\":\"N\",\"price\":1,\"initialQuantity\":1}";
    assert!(matches!(decode_envelope(bad_id.as_bytes()), DecodedEvent::Malformed));

    // Missing price.
    let no_price = format!(
        "{{\"type\":\"ProductCreatedEvent\",\"productId\":\"{}\",\"sku\":\"S\",\"name\":\"N\",\"initialQuantity\":1}}",
        PID
    );
    assert!(matches!(decode_envelope(no_price.as_bytes()), DecodedEvent::Malformed));

    // Price present but not a number.
    let bad_price = format!(
        "{{\"type\":\"ProductCreatedEvent\",\"productId\":\"{}\",\"sku\":\"S\",\"name\":\"N\",\"price\":\"free\",\"initialQuantity\":1}}",
        PID
    );
    assert!(matches!(decode_envelope(bad_price.as_bytes()), DecodedEvent::Malformed));

    // Negative initial quantity.
    let negative = format!(
        "{{\"type\":\"ProductCreatedEvent\",\"productId\":\"{}\",\"sku\":\"S\",\"name\":\"N\",\"price\":1,\"initialQuantity\":-4}}",
        PID
    );
    assert!(matches!(decode_envelope(negative.as_bytes()), DecodedEvent::Malformed));

    // Initial quantity beyond the stock column's range.
    let huge = format!(
        "{{\"type\":\"ProductCreatedEvent\",\"productId\":\"{}\",\"sku\":\"S\",\"name\":\"N\",\"price\":1,\"initialQuantity\":2147483648}}",
        PID
    );
    assert!(matches!(decode_envelope(huge.as_bytes()), DecodedEvent::Malformed));
}

#[test]
fn checkout_with_bad_fields_is_malformed() {
    // Missing user identifier.
    let no_user = format!(
        "{{\"type\":\"CheckoutInitiatedEvent\",\"orderId\":\"{}\",\"items\":[]}}",
        PID
    );
    assert!(matches!(decode_envelope(no_user.as_bytes()), DecodedEvent::Malformed));

    // Item quantity is not an integer.
    let bad_qty = format!(
        "{{\"type\":\"CheckoutInitiatedEvent\",\"orderId\":\"{}\",\"userId\":\"{}\",\"items\":[\
         {{\"productId\":\"{}\",\"quantity\":\"two\"}}]}}",
        PID, PID, PID
    );
    assert!(matches!(decode_envelope(bad_qty.as_bytes()), DecodedEvent::Malformed));

    // Negative item quantity.
    let negative_qty = format!(
        "{{\"type\":\"CheckoutInitiatedEvent\",\"orderId\":\"{}\",\"userId\":\"{}\",\"items\":[\
         {{\"productId\":\"{}\",\"quantity\":-1}}]}}",
        PID, PID, PID
    );
    assert!(matches!(decode_envelope(negative_qty.as_bytes()), DecodedEvent::Malformed));
}

#[test]
fn checkout_with_empty_items_decodes() {
    let payload = format!(
        "{{\"type\":\"CheckoutInitiatedEvent\",\"orderId\":\"{}\",\"userId\":\"{}\",\"items\":[]}}",
        PID, PID
    );
    match decode_envelope(payload.as_bytes()) {
        DecodedEvent::Checkout(c) => assert!(c.items.is_empty()),
        _ => panic!("expected a checkout event"),
    }
}

#[test]
fn non_object_documents_are_unrecognized_with_empty_text() {
    // Valid JSON without a `type` member to inspect: dropped as an
    // unrecognized event, like an object with no discriminator.
    match decode_envelope(b"[1,2,3]") {
        DecodedEvent::Unrecognized(t) => assert_eq!(t, ""),
        _ => panic!("expected an unrecognized event"),
    }
    match decode_envelope(b"null") {
        DecodedEvent::Unrecognized(t) => assert_eq!(t, ""),
        _ => panic!("expected an unrecognized event"),
    }
    match decode_envelope(b"\"CheckoutInitiatedEvent\"") {
        DecodedEvent::Unrecognized(t) => assert_eq!(t, ""),
        _ => panic!("expected an unrecognized event"),
    }
}

#[test]
fn quantity_must_be_integral() {
    // A fractional quantity is a number but not an integer: the event is
    // malformed, not truncated.
    let payload = format!(
        "{{\"type\":\"ProductCreatedEvent\",\"productId\":\"{}\",\"sku\":\"S\",\"name\":\"N\",\"price\":1,\"initialQuantity\":2.5}}",
        PID
    );
    assert!(matches!(decode_envelope(payload.as_bytes()), DecodedEvent::Malformed));
}
