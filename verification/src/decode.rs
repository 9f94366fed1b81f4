use vstd::prelude::*;

use vstd::string::StringExecFns;

use crate::events::{CheckoutInitiatedEvent, DecodedEvent, InventoryItem, ProductCreatedEvent};
use crate::ids::{canonical_uuid, is_canonical_id, uuid_canon};

verus! {

/// The library's model of one parsed JSON document. `Num` carries the value
/// when the number is integral and fits a signed 64-bit integer, and `None`
/// for every other number (fractions, larger magnitudes): the decoder only
/// tests number-hood and reads bounded non-negative integers. An object's
/// entries carry unique keys in the order the parser hands them out.
pub enum Json {
    Null,
    Bool(bool),
    Num(Option<i64>),
    Str(String),
    Arr(Vec<Json>),
    Obj(Vec<(String, Json)>),
}

/// What the payload bytes parse to: `Some` of the library's model of the
/// document when they are valid JSON, `None` otherwise. A function of the
/// bytes alone.
pub uninterp spec fn json_of(b: Seq<u8>) -> Option<Json>;

/// Relies on `serde_json::from_slice::<Value>`: parses the bytes as one JSON
/// document, deterministically in the bytes (a recursion limit makes an
/// over-deep document an error, never a panic). The parsed document is
/// carried into the library's `Json` model by `value_to_json`.
#[verifier::external_body]
fn parse_json(payload: &[u8]) -> (r: Option<Json>)
    ensures
        r == json_of(payload@),
{
    serde_json::from_slice::<serde_json::Value>(payload).ok().map(|v| value_to_json(&v))
}

/// Relies on the shape of `serde_json::Value` and on `Number::as_i64` (the
/// value when the number is integral and fits an `i64`): carries the parsed
/// document into the library's `Json` model, one arm per variant, moving
/// fields only.
#[verifier::external_body]
fn value_to_json(v: &serde_json::Value) -> Json {
    match v {
        serde_json::Value::Null => Json::Null,
        serde_json::Value::Bool(b) => Json::Bool(*b),
        serde_json::Value::Number(n) => Json::Num(n.as_i64()),
        serde_json::Value::String(s) => Json::Str(s.clone()),
        serde_json::Value::Array(a) => Json::Arr(a.iter().map(value_to_json).collect()),
        serde_json::Value::Object(o) => Json::Obj(
            o.iter().map(|(k, x)| (k.clone(), value_to_json(x))).collect(),
        ),
    }
}

#[verifier::external_type_specification]
#[verifier::external_body]
pub struct ExJsonValue(serde_json::Value);

/// The entry under `key` in an object's entry list: the first match.
pub open spec fn lookup_spec(entries: Seq<(String, Json)>, key: Seq<char>) -> Option<Json>
    decreases entries.len(),
{
    if entries.len() == 0 {
        None
    } else if entries.first().0@ == key {
        Some(entries.first().1)
    } else {
        lookup_spec(entries.drop_first(), key)
    }
}

/// The member of a JSON object under `key`; nothing when the value is not an
/// object or has no such member.
pub open spec fn member_of(j: Json, key: Seq<char>) -> Option<Json> {
    match j {
        Json::Obj(entries) => lookup_spec(entries@, key),
        _ => None,
    }
}

/// The text of a string-valued member.
pub open spec fn str_member(j: Json, key: Seq<char>) -> Option<Seq<char>> {
    match member_of(j, key) {
        Some(Json::Str(s)) => Some(s@),
        _ => None,
    }
}

/// The value of an integer-valued member that fits a signed 64-bit integer.
pub open spec fn int_member(j: Json, key: Seq<char>) -> Option<int> {
    match member_of(j, key) {
        Some(Json::Num(Some(n))) => Some(n as int),
        _ => None,
    }
}

/// A member read as a stock quantity: an integer within the non-negative
/// range of the stock column.
pub open spec fn qty_member(j: Json, key: Seq<char>) -> Option<int> {
    match int_member(j, key) {
        Some(n) => if 0 <= n <= i32::MAX {
            Some(n)
        } else {
            None
        },
        None => None,
    }
}

/// A member read as an identifier: a string holding a UUID, taken to its
/// canonical form.
pub open spec fn id_member(j: Json, key: Seq<char>) -> Option<Seq<char>> {
    match str_member(j, key) {
        Some(s) => uuid_canon(s),
        None => None,
    }
}

/// The member under `key` is a JSON number of any kind.
pub open spec fn has_number_member(j: Json, key: Seq<char>) -> bool {
    member_of(j, key) matches Some(Json::Num(_))
}

/// The elements of the array-valued `items` member.
pub open spec fn items_member(j: Json) -> Option<Seq<Json>> {
    match member_of(j, "items"@) {
        Some(Json::Arr(a)) => Some(a@),
        _ => None,
    }
}

/// The discriminator the decoder inspects: the `type` member's text, or the
/// empty string when it is missing or not a string.
pub open spec fn type_tag_of(j: Json) -> Seq<char> {
    match str_member(j, "type"@) {
        Some(t) => t,
        None => Seq::empty(),
    }
}

/// A document has every field a product-created event needs, of the right
/// shape: identifier a UUID, `sku` and `name` strings, `price` a number,
/// `initialQuantity` a bounded non-negative integer.
pub open spec fn product_created_shape_ok(j: Json) -> bool {
    &&& id_member(j, "productId"@) is Some
    &&& str_member(j, "sku"@) is Some
    &&& str_member(j, "name"@) is Some
    &&& has_number_member(j, "price"@)
    &&& qty_member(j, "initialQuantity"@) is Some
}

/// The event `e` is exactly the product-created event the document carries.
pub open spec fn is_product_created_decode(j: Json, e: ProductCreatedEvent) -> bool {
    &&& id_member(j, "productId"@) == Some(e.product_id@)
    &&& str_member(j, "sku"@) == Some(e.sku@)
    &&& str_member(j, "name"@) == Some(e.name@)
    &&& has_number_member(j, "price"@)
    &&& qty_member(j, "initialQuantity"@) == Some(e.initial_quantity as int)
}

/// One entry of the `items` array has the shape of a line item.
pub open spec fn item_shape_ok(entry: Json) -> bool {
    id_member(entry, "productId"@) is Some && qty_member(entry, "quantity"@) is Some
}

/// The line item `it` is exactly what the array entry carries.
pub open spec fn is_item_decode(entry: Json, it: InventoryItem) -> bool {
    id_member(entry, "productId"@) == Some(it.product_id@) && qty_member(entry, "quantity"@)
        == Some(it.quantity as int)
}

/// A document has every field a checkout event needs, of the right shape.
pub open spec fn checkout_shape_ok(j: Json) -> bool {
    &&& id_member(j, "orderId"@) is Some
    &&& id_member(j, "userId"@) is Some
    &&& items_member(j) matches Some(entries) && forall|i: int|
        0 <= i < entries.len() ==> item_shape_ok(#[trigger] entries[i])
}

/// The event `c` is exactly the checkout event the document carries.
pub open spec fn is_checkout_decode(j: Json, c: CheckoutInitiatedEvent) -> bool {
    &&& id_member(j, "orderId"@) == Some(c.order_id@)
    &&& id_member(j, "userId"@) == Some(c.user_id@)
    &&& items_member(j) matches Some(entries) && c.items@.len() == entries.len() && forall|i: int|
        0 <= i < entries.len() ==> is_item_decode(#[trigger] entries[i], c.items@[i])
}

/// The envelope schema: what the decoder must hand out for one parse result.
/// Unparseable bytes and recognized events of the wrong shape are `Malformed`;
/// an unknown discriminator is `Unrecognized` with its text; a well-shaped
/// recognized event comes out with exactly the fields the document carries.
pub open spec fn is_decode_of(parsed: Option<Json>, d: DecodedEvent) -> bool {
    match parsed {
        None => d is Malformed,
        Some(j) => {
            let tag = type_tag_of(j);
            if tag == "ProductCreatedEvent"@ {
                if product_created_shape_ok(j) {
                    d matches DecodedEvent::ProductCreated(e) && is_product_created_decode(j, e)
                } else {
                    d is Malformed
                }
            } else if tag == "CheckoutInitiatedEvent"@ {
                if checkout_shape_ok(j) {
                    d matches DecodedEvent::Checkout(c) && is_checkout_decode(j, c)
                } else {
                    d is Malformed
                }
            } else {
                d matches DecodedEvent::Unrecognized(t) && t@ == tag
            }
        },
    }
}

fn lookup_member<'a>(entries: &'a Vec<(String, Json)>, key: &String) -> (r: Option<&'a Json>)
    ensures
        match r {
            Option::Some(v) => lookup_spec(entries@, key@) == Some(*v),
            Option::None => lookup_spec(entries@, key@) is None,
        },
{
    let mut i: usize = 0;
    proof {
        assert(entries@.skip(0) =~= entries@);
    }
    while i < entries.len()
        invariant
            i <= entries@.len(),
            lookup_spec(entries@, key@) == lookup_spec(entries@.skip(i as int), key@),
        decreases entries@.len() - i,
    {
        proof {
            assert(entries@.skip(i as int).first() == entries@[i as int]);
            assert(entries@.skip(i as int).drop_first() =~= entries@.skip(i + 1 as int));
        }
        if entries[i].0 == *key {
            return Some(&entries[i].1);
        }
        i += 1;
    }
    None
}

fn get_member<'a>(j: &'a Json, key: &String) -> (r: Option<&'a Json>)
    ensures
        match r {
            Option::Some(v) => member_of(*j, key@) == Some(*v),
            Option::None => member_of(*j, key@) is None,
        },
{
    match j {
        Json::Obj(entries) => lookup_member(entries, key),
        _ => None,
    }
}

fn member_str(j: &Json, key: &String) -> (r: Option<String>)
    ensures
        match r {
            Option::Some(s) => str_member(*j, key@) == Some(s@),
            Option::None => str_member(*j, key@) is None,
        },
{
    match get_member(j, key) {
        Some(Json::Str(s)) => Some(s.clone()),
        _ => None,
    }
}

fn member_i64(j: &Json, key: &String) -> (r: Option<i64>)
    ensures
        match r {
            Option::Some(n) => int_member(*j, key@) == Some(n as int),
            Option::None => int_member(*j, key@) is None,
        },
{
    match get_member(j, key) {
        Some(Json::Num(n)) => *n,
        _ => None,
    }
}

/// The member under `key` as a stock quantity: present, integral and within
/// the non-negative range of the stock column.
fn member_quantity(j: &Json, key: &String) -> (r: Option<i32>)
    ensures
        match r {
            Option::Some(q) => qty_member(*j, key@) == Some(q as int) && 0 <= q,
            Option::None => qty_member(*j, key@) is None,
        },
{
    match member_i64(j, key) {
        Some(x) => if 0 <= x && x <= i32::MAX as i64 {
            Some(x as i32)
        } else {
            None
        },
        None => None,
    }
}

/// The member under `key` brought to canonical UUID form; nothing when it is
/// missing, not a string, or not a UUID.
fn member_canonical_id(j: &Json, key: &String) -> (r: Option<String>)
    ensures
        match r {
            Option::Some(s) => id_member(*j, key@) == Some(s@) && is_canonical_id(s@),
            Option::None => id_member(*j, key@) is None,
        },
{
    match member_str(j, key) {
        Some(s) => canonical_uuid(s.as_str()),
        None => None,
    }
}

fn member_is_number(j: &Json, key: &String) -> (r: bool)
    ensures
        r == has_number_member(*j, key@),
{
    match get_member(j, key) {
        Some(Json::Num(_)) => true,
        _ => false,
    }
}

fn member_items<'a>(j: &'a Json) -> (r: Option<&'a Vec<Json>>)
    ensures
        match r {
            Option::Some(a) => items_member(*j) == Some(a@),
            Option::None => items_member(*j) is None,
        },
{
    let key = String::from_str("items");
    match get_member(j, &key) {
        Some(Json::Arr(a)) => Some(a),
        _ => None,
    }
}

/// The event envelope decoder: parses one raw inbound payload, inspects its
/// `type` discriminator, and extracts the matching event per the envelope
/// schema `is_decode_of`. A payload that is not JSON, or a recognized event
/// missing fields or holding fields of the wrong shape, comes back
/// `Malformed`; a JSON payload with an unknown discriminator comes back
/// `Unrecognized` with the discriminator text. The decoder mutates nothing
/// and validates everything it hands out: quantities are non-negative and
/// identifiers are canonical UUIDs.
pub fn decode_envelope(payload: &[u8]) -> (d: DecodedEvent)
    ensures
        d.wf(),
        d.ids_canonical(),
        is_decode_of(json_of(payload@), d),
{
    let parsed = match parse_json(payload) {
        Some(v) => v,
        None => {
            return DecodedEvent::Malformed;
        },
    };
    let type_tag = match member_str(&parsed, &String::from_str("type")) {
        Some(s) => s,
        None => String::new(),
    };
    assert(type_tag@ == type_tag_of(parsed));
    if type_tag == String::from_str("ProductCreatedEvent") {
        let product_id = match member_canonical_id(&parsed, &String::from_str("productId")) {
            Some(s) => s,
            None => {
                return DecodedEvent::Malformed;
            },
        };
        let sku = match member_str(&parsed, &String::from_str("sku")) {
            Some(s) => s,
            None => {
                return DecodedEvent::Malformed;
            },
        };
        let name = match member_str(&parsed, &String::from_str("name")) {
            Some(s) => s,
            None => {
                return DecodedEvent::Malformed;
            },
        };
        if !member_is_number(&parsed, &String::from_str("price")) {
            return DecodedEvent::Malformed;
        }
        let initial_quantity = match member_quantity(&parsed, &String::from_str("initialQuantity"))
            {
            Some(q) => q,
            None => {
                return DecodedEvent::Malformed;
            },
        };
        DecodedEvent::ProductCreated(
            ProductCreatedEvent { product_id, sku, name, initial_quantity },
        )
    } else if type_tag == String::from_str("CheckoutInitiatedEvent") {
        let order_id = match member_canonical_id(&parsed, &String::from_str("orderId")) {
            Some(s) => s,
            None => {
                return DecodedEvent::Malformed;
            },
        };
        let user_id = match member_canonical_id(&parsed, &String::from_str("userId")) {
            Some(s) => s,
            None => {
                return DecodedEvent::Malformed;
            },
        };
        let entries = match member_items(&parsed) {
            Some(a) => a,
            None => {
                return DecodedEvent::Malformed;
            },
        };
        let mut items: Vec<InventoryItem> = Vec::new();
        let mut i: usize = 0;
        while i < entries.len()
            invariant
                i <= entries@.len(),
                items@.len() == i,
                json_of(payload@) == Some(parsed),
                items_member(parsed) == Some(entries@),
                type_tag_of(parsed) != "ProductCreatedEvent"@,
                id_member(parsed, "orderId"@) == Some(order_id@),
                id_member(parsed, "userId"@) == Some(user_id@),
                is_canonical_id(order_id@),
                is_canonical_id(user_id@),
                type_tag_of(parsed) == "CheckoutInitiatedEvent"@,
                forall|k: int| 0 <= k < i ==> is_item_decode(entries@[k], #[trigger] items@[k]),
                forall|k: int|
                    0 <= k < i ==> (#[trigger] items@[k]).wf() && is_canonical_id(
                        items@[k].product_id@,
                    ),
            decreases entries@.len() - i,
        {
            let entry = &entries[i];
            let product_id = match member_canonical_id(entry, &String::from_str("productId")) {
                Some(s) => s,
                None => {
                    assert(!item_shape_ok(entries@[i as int]));
                    assert(!checkout_shape_ok(parsed)) by {
                        if checkout_shape_ok(parsed) {
                            assert(items_member(parsed)->0 == entries@);
                            assert(item_shape_ok(items_member(parsed)->0[i as int]));
                        }
                    }
                    return DecodedEvent::Malformed;
                },
            };
            let quantity = match member_quantity(entry, &String::from_str("quantity")) {
                Some(q) => q,
                None => {
                    assert(!item_shape_ok(entries@[i as int]));
                    assert(!checkout_shape_ok(parsed)) by {
                        if checkout_shape_ok(parsed) {
                            assert(items_member(parsed)->0 == entries@);
                            assert(item_shape_ok(items_member(parsed)->0[i as int]));
                        }
                    }
                    return DecodedEvent::Malformed;
                },
            };
            items.push(InventoryItem { product_id, quantity });
            i += 1;
        }
        let c = CheckoutInitiatedEvent { order_id, user_id, items };
        proof {
            assert(is_checkout_decode(parsed, c));
            assert forall|k: int|
                0 <= k < entries@.len() implies item_shape_ok(#[trigger] entries@[k]) by {
                assert(is_item_decode(entries@[k], c.items@[k]));
            }
        }
        DecodedEvent::Checkout(c)
    } else {
        DecodedEvent::Unrecognized(type_tag)
    }
}

} // verus!
