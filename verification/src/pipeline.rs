use vstd::prelude::*;

use crate::decode::{decode_envelope, is_decode_of, json_of};
use crate::engine::{
    all_lines_ok, apply_line, apply_lines, can_apply, decrement_failed_reason,
    insufficient_reason, line_ok, reserve, reservation_grants,
};
use crate::events::{DecodedEvent, InventoryItem, ReservationOutcome};
use crate::store::{stock_of, upsert_ok, InventoryStore};

verus! {

/// How processing one inbound message ends: `Done` once the message was
/// dispatched to its handler (carrying the outcome event to publish, if the
/// message was a checkout), `Dropped` when it was discarded at decode time.
pub enum ProcessedMessage {
    Done(Option<ReservationOutcome>),
    Dropped,
}

/// The stock state a checkout leaves behind: decremented per line item when
/// the reservation is granted, untouched otherwise.
pub open spec fn checkout_final_map(m: Map<Seq<char>, int>, items: Seq<InventoryItem>) -> Map<
    Seq<char>,
    int,
> {
    if reservation_grants(m, items) {
        apply_lines(m, items)
    } else {
        m
    }
}

/// The stock state an additive upsert leaves behind: the product's quantity
/// grown by `amount` when that fits the stock column, untouched otherwise.
pub open spec fn upsert_final_map(m: Map<Seq<char>, int>, k: Seq<char>, amount: int) -> Map<
    Seq<char>,
    int,
> {
    if upsert_ok(m, k, amount) {
        m.insert(k, stock_of(m, k) + amount)
    } else {
        m
    }
}

/// What dispatching one decoded event does: how the stock state `m1` left
/// behind relates to the state `m0` before, and what is reported. A
/// product-created event is upserted and emits nothing; a checkout moves the
/// state per the reservation engine and emits the outcome event; unrecognized
/// and malformed events change nothing and emit nothing.
pub open spec fn dispatch_spec(
    m0: Map<Seq<char>, int>,
    m1: Map<Seq<char>, int>,
    event: DecodedEvent,
    r: ProcessedMessage,
) -> bool {
    match event {
        DecodedEvent::ProductCreated(e) => {
            &&& r == ProcessedMessage::Done(Option::<ReservationOutcome>::None)
            &&& m1 == upsert_final_map(m0, e.product_id@, e.initial_quantity as int)
        },
        DecodedEvent::Checkout(c) => {
            &&& m1 == checkout_final_map(m0, c.items@)
            &&& r matches ProcessedMessage::Done(Some(o)) && {
                &&& o.spec_order_id() == c.order_id@
                &&& o.spec_user_id() == c.user_id@
                &&& (o is Reserved) == reservation_grants(m0, c.items@)
                &&& !all_lines_ok(m0, c.items@) ==> (o matches ReservationOutcome::Failed {
                    reason,
                    ..
                } && reason@ == insufficient_reason())
                &&& all_lines_ok(m0, c.items@) && !can_apply(m0, c.items@) ==> (o matches
                ReservationOutcome::Failed { reason, .. } && exists|k: int|
                    0 <= k < c.items@.len() && #[trigger] can_apply(m0, c.items@.take(k))
                        && !line_ok(apply_lines(m0, c.items@.take(k)), c.items@[k]) && reason@
                        == decrement_failed_reason(c.items@[k].product_id@))
            }
        },
        DecodedEvent::Unrecognized(_) => r == ProcessedMessage::Dropped && m1 == m0,
        DecodedEvent::Malformed => r == ProcessedMessage::Dropped && m1 == m0,
    }
}

/// Dispatches one decoded event to its handler. A product-created event is an
/// additive upsert of the product's stock and emits nothing. A checkout event
/// opens a transaction, runs the reservation engine, commits exactly when the
/// reservation was granted (rolling back otherwise), and hands back the
/// outcome event to publish. Unrecognized and malformed events change nothing
/// and emit nothing.
pub fn process_decoded(store: &mut InventoryStore, event: DecodedEvent) -> (r: ProcessedMessage)
    requires
        old(store).wf(),
        event.wf(),
    ensures
        final(store).wf(),
        dispatch_spec(old(store)@, final(store)@, event, r),
{
    match event {
        DecodedEvent::ProductCreated(e) => {
            // A refused upsert (stock column overflow) leaves the store
            // untouched; either way the message is processed and no outcome
            // event is owed.
            let _applied = store.upsert_add(&e.product_id, e.initial_quantity);
            ProcessedMessage::Done(None)
        },
        DecodedEvent::Checkout(c) => {
            let mut tx = store.begin();
            let outcome = reserve(&c, &mut tx);
            if outcome.is_reserved() {
                store.commit(tx);
            } else {
                tx.rollback();
            }
            ProcessedMessage::Done(Some(outcome))
        },
        DecodedEvent::Unrecognized(_) => ProcessedMessage::Dropped,
        DecodedEvent::Malformed => ProcessedMessage::Dropped,
    }
}

/// One full turn of the consumer loop's per-message work: decode the raw
/// payload per the envelope schema, dispatch the decoded event, and report
/// how it ended. The event decoded from the payload — determined by the
/// payload bytes through `json_of` and `is_decode_of` — is well-formed and
/// dispatched per `dispatch_spec`; in particular a message is dropped exactly
/// when the payload is not JSON, a recognized event of the wrong shape, or an
/// unknown `type`, and then no stock moves and no outcome is emitted.
pub fn process_message(store: &mut InventoryStore, payload: &[u8]) -> (r: ProcessedMessage)
    requires
        old(store).wf(),
    ensures
        final(store).wf(),
        exists|d: DecodedEvent|
            #[trigger] is_decode_of(json_of(payload@), d) && d.wf() && d.ids_canonical()
                && dispatch_spec(old(store)@, final(store)@, d, r),
        r is Dropped ==> final(store)@ == old(store)@,
{
    let event = decode_envelope(payload);
    let ghost ev = event;
    let r = process_decoded(store, event);
    proof {
        assert(is_decode_of(json_of(payload@), ev) && ev.wf() && ev.ids_canonical()
            && dispatch_spec(old(store)@, store@, ev, r));
    }
    r
}

} // verus!
