use vstd::prelude::*;

use crate::ids::is_canonical_id;

verus! {

/// One line item of a checkout order: a product and the quantity asked for.
pub struct InventoryItem {
    pub product_id: String,
    pub quantity: i32,
}

impl InventoryItem {
    /// A line item the decoder hands out never asks for a negative quantity.
    pub open spec fn wf(&self) -> bool {
        0 <= self.quantity
    }
}

/// A product came into the catalog; its stock starts at `initial_quantity`.
pub struct ProductCreatedEvent {
    pub product_id: String,
    pub sku: String,
    pub name: String,
    pub initial_quantity: i32,
}

impl ProductCreatedEvent {
    pub open spec fn wf(&self) -> bool {
        0 <= self.initial_quantity
    }

    pub open spec fn ids_canonical(&self) -> bool {
        is_canonical_id(self.product_id@)
    }
}

/// A checkout order asking to reserve stock for each of its line items.
pub struct CheckoutInitiatedEvent {
    pub order_id: String,
    pub user_id: String,
    pub items: Vec<InventoryItem>,
}

impl CheckoutInitiatedEvent {
    pub open spec fn wf(&self) -> bool {
        forall|i: int| 0 <= i < self.items@.len() ==> (#[trigger] self.items@[i]).wf()
    }

    pub open spec fn ids_canonical(&self) -> bool {
        &&& is_canonical_id(self.order_id@)
        &&& is_canonical_id(self.user_id@)
        &&& forall|i: int|
            0 <= i < self.items@.len() ==> is_canonical_id(
                (#[trigger] self.items@[i]).product_id@,
            )
    }
}

/// What the decoder makes of one inbound message.
pub enum DecodedEvent {
    ProductCreated(ProductCreatedEvent),
    Checkout(CheckoutInitiatedEvent),
    /// The payload was a JSON object, but its `type` discriminator is not one
    /// this service handles; carries the discriminator text (empty when the
    /// field is missing or not a string).
    Unrecognized(String),
    /// The payload could not be parsed as structured data at all, or a
    /// recognized event was missing fields or held fields of the wrong shape.
    Malformed,
}

impl DecodedEvent {
    pub open spec fn wf(&self) -> bool {
        match self {
            DecodedEvent::ProductCreated(e) => e.wf(),
            DecodedEvent::Checkout(c) => c.wf(),
            DecodedEvent::Unrecognized(_) => true,
            DecodedEvent::Malformed => true,
        }
    }

    /// Every identifier the decoder hands out is in canonical UUID form.
    pub open spec fn ids_canonical(&self) -> bool {
        match self {
            DecodedEvent::ProductCreated(e) => e.ids_canonical(),
            DecodedEvent::Checkout(c) => c.ids_canonical(),
            DecodedEvent::Unrecognized(_) => true,
            DecodedEvent::Malformed => true,
        }
    }
}

/// The single message emitted after a checkout order was processed to
/// completion, recording whether its reservation succeeded.
pub enum ReservationOutcome {
    Reserved { order_id: String, user_id: String, timestamp: String },
    Failed { order_id: String, user_id: String, reason: String, timestamp: String },
}

impl ReservationOutcome {
    pub open spec fn spec_order_id(&self) -> Seq<char> {
        match self {
            ReservationOutcome::Reserved { order_id, .. } => order_id@,
            ReservationOutcome::Failed { order_id, .. } => order_id@,
        }
    }

    pub open spec fn spec_user_id(&self) -> Seq<char> {
        match self {
            ReservationOutcome::Reserved { user_id, .. } => user_id@,
            ReservationOutcome::Failed { user_id, .. } => user_id@,
        }
    }

    pub fn order_id(&self) -> (r: &String)
        ensures
            r@ == self.spec_order_id(),
    {
        match self {
            ReservationOutcome::Reserved { order_id, .. } => order_id,
            ReservationOutcome::Failed { order_id, .. } => order_id,
        }
    }

    pub fn is_reserved(&self) -> (r: bool)
        ensures
            r == (self is Reserved),
    {
        match self {
            ReservationOutcome::Reserved { .. } => true,
            ReservationOutcome::Failed { .. } => false,
        }
    }
}

/// A request to the HTTP write surface to set the stock level of one product.
pub struct UpdateStockRequest {
    pub quantity: i32,
}

} // verus!
