use vstd::prelude::*;

use vstd::string::StringExecFns;

use crate::clock::now_rfc3339;
use crate::events::{CheckoutInitiatedEvent, InventoryItem, ReservationOutcome};
use crate::store::Transaction;

verus! {

/// One line item is satisfiable against a stock state: the product has a row
/// and it holds at least the requested quantity.
pub open spec fn line_ok(m: Map<Seq<char>, int>, it: InventoryItem) -> bool {
    m.contains_key(it.product_id@) && it.quantity as int <= m[it.product_id@]
}

/// Every line item checks out against the same snapshot; this is the
/// check-phase test the engine runs before touching any row.
pub open spec fn all_lines_ok(m: Map<Seq<char>, int>, items: Seq<InventoryItem>) -> bool {
    forall|i: int| 0 <= i < items.len() ==> line_ok(m, #[trigger] items[i])
}

/// The stock state after decrementing one line item.
pub open spec fn apply_line(m: Map<Seq<char>, int>, it: InventoryItem) -> Map<Seq<char>, int> {
    m.insert(it.product_id@, m[it.product_id@] - it.quantity)
}

/// The stock state after decrementing every line item in order.
pub open spec fn apply_lines(m: Map<Seq<char>, int>, items: Seq<InventoryItem>) -> Map<
    Seq<char>,
    int,
>
    decreases items.len(),
{
    if items.len() == 0 {
        m
    } else {
        apply_lines(apply_line(m, items.first()), items.drop_first())
    }
}

/// The decrements can all take effect in order: each line item still checks
/// out against the running state left by the ones before it. This is weaker
/// than `all_lines_ok` exactly when line items repeat a product.
pub open spec fn can_apply(m: Map<Seq<char>, int>, items: Seq<InventoryItem>) -> bool
    decreases items.len(),
{
    items.len() == 0 || (line_ok(m, items.first()) && can_apply(
        apply_line(m, items.first()),
        items.drop_first(),
    ))
}

/// The engine grants a reservation exactly when the check phase and the
/// decrement phase both go through.
pub open spec fn reservation_grants(m: Map<Seq<char>, int>, items: Seq<InventoryItem>) -> bool {
    all_lines_ok(m, items) && can_apply(m, items)
}

/// The reason a reservation refused for insufficiency carries.
pub open spec fn insufficient_reason() -> Seq<char> {
    "Insufficient inventory"@
}

/// The reason a reservation that failed mid-decrement carries, naming the
/// product whose row refused the update.
pub open spec fn decrement_failed_reason(product_id: Seq<char>) -> Seq<char> {
    "Failed to update inventory for product "@ + product_id
        + ": conditional stock update affected no row"@
}

proof fn lemma_apply_lines_snoc(
    m: Map<Seq<char>, int>,
    items: Seq<InventoryItem>,
    it: InventoryItem,
)
    ensures
        apply_lines(m, items.push(it)) == apply_line(apply_lines(m, items), it),
    decreases items.len(),
{
    if items.len() == 0 {
        assert(items.push(it).first() == it);
        assert(items.push(it).drop_first() =~= Seq::<InventoryItem>::empty());
        assert(apply_lines(m, items.push(it)) == apply_lines(
            apply_line(m, it),
            Seq::<InventoryItem>::empty(),
        ));
        assert(apply_lines(apply_line(m, it), Seq::<InventoryItem>::empty()) == apply_line(m, it));
        assert(apply_lines(m, items) == m);
    } else {
        assert(items.push(it).first() == items.first());
        assert(items.push(it).drop_first() =~= items.drop_first().push(it));
        assert(apply_lines(m, items.push(it)) == apply_lines(
            apply_line(m, items.first()),
            items.drop_first().push(it),
        ));
        lemma_apply_lines_snoc(apply_line(m, items.first()), items.drop_first(), it);
        assert(apply_lines(m, items) == apply_lines(apply_line(m, items.first()), items.drop_first()));
    }
}

proof fn lemma_can_apply_snoc(
    m: Map<Seq<char>, int>,
    items: Seq<InventoryItem>,
    it: InventoryItem,
)
    ensures
        can_apply(m, items.push(it)) == (can_apply(m, items) && line_ok(
            apply_lines(m, items),
            it,
        )),
    decreases items.len(),
{
    if items.len() == 0 {
        assert(items.push(it).first() == it);
        assert(items.push(it).drop_first() =~= Seq::<InventoryItem>::empty());
        assert(can_apply(m, items.push(it)) == (line_ok(m, it) && can_apply(
            apply_line(m, it),
            Seq::<InventoryItem>::empty(),
        )));
        assert(can_apply(apply_line(m, it), Seq::<InventoryItem>::empty()));
        assert(can_apply(m, items));
        assert(apply_lines(m, items) == m);
    } else {
        assert(items.push(it).first() == items.first());
        assert(items.push(it).drop_first() =~= items.drop_first().push(it));
        assert(can_apply(m, items.push(it)) == (line_ok(m, items.first()) && can_apply(
            apply_line(m, items.first()),
            items.drop_first().push(it),
        )));
        lemma_can_apply_snoc(apply_line(m, items.first()), items.drop_first(), it);
        lemma_apply_lines_snoc(apply_line(m, items.first()), items.drop_first(), it);
        assert(can_apply(m, items) == (line_ok(m, items.first()) && can_apply(
            apply_line(m, items.first()),
            items.drop_first(),
        )));
        assert(apply_lines(m, items) == apply_lines(apply_line(m, items.first()), items.drop_first()));
    }
}

/// Along a reservation that can be applied in full, each line item checks out
/// against the running state left by the line items before it.
proof fn lemma_can_apply_step(m: Map<Seq<char>, int>, items: Seq<InventoryItem>, i: int)
    requires
        can_apply(m, items),
        0 <= i < items.len(),
    ensures
        line_ok(apply_lines(m, items.take(i)), items[i]),
    decreases i,
{
    if i == 0 {
        assert(items.take(0) =~= Seq::<InventoryItem>::empty());
    } else {
        let m1 = apply_line(m, items.first());
        lemma_can_apply_step(m1, items.drop_first(), i - 1);
        assert(items.drop_first().take(i - 1) =~= items.take(i).drop_first());
        assert(items.take(i).first() == items.first());
        assert(apply_lines(m, items.take(i)) == apply_lines(m1, items.take(i).drop_first()));
    }
}

/// A line item blocked by the running state dooms the whole decrement phase.
proof fn lemma_can_apply_blocked(m: Map<Seq<char>, int>, items: Seq<InventoryItem>, i: int)
    requires
        0 <= i < items.len(),
        can_apply(m, items.take(i)),
        !line_ok(apply_lines(m, items.take(i)), items[i]),
    ensures
        !can_apply(m, items),
{
    if can_apply(m, items) {
        lemma_can_apply_step(m, items, i);
    }
}

fn insufficient_reason_text() -> (s: String)
    ensures
        s@ == insufficient_reason(),
{
    "Insufficient inventory".to_owned()
}

fn decrement_failed_reason_text(product_id: &String) -> (s: String)
    ensures
        s@ == decrement_failed_reason(product_id@),
{
    let mut s = String::from_str("Failed to update inventory for product ");
    s.append(product_id.as_str());
    s.append(": conditional stock update affected no row");
    s
}

/// The reservation engine: validates every line item of the order against the
/// transaction's snapshot, and decrements stock only when all of them are
/// jointly satisfiable — all-or-nothing. The caller owns the transaction: it
/// must commit on a `Reserved` outcome and roll back on a `Failed` one.
pub fn reserve(req: &CheckoutInitiatedEvent, tx: &mut Transaction) -> (o: ReservationOutcome)
    requires
        old(tx).wf(),
        req.wf(),
    ensures
        final(tx).wf(),
        o.spec_order_id() == req.order_id@,
        o.spec_user_id() == req.user_id@,
        (o is Reserved) == reservation_grants(old(tx)@, req.items@),
        o is Reserved ==> final(tx)@ == apply_lines(old(tx)@, req.items@),
        !all_lines_ok(old(tx)@, req.items@) ==> final(tx)@ == old(tx)@ && (o matches
        ReservationOutcome::Failed { reason, .. } && reason@ == insufficient_reason()),
        all_lines_ok(old(tx)@, req.items@) && !can_apply(old(tx)@, req.items@) ==> (o matches
        ReservationOutcome::Failed { reason, .. } && exists|k: int|
            0 <= k < req.items@.len() && #[trigger] can_apply(old(tx)@, req.items@.take(k))
                && !line_ok(apply_lines(old(tx)@, req.items@.take(k)), req.items@[k])
                && final(tx)@ == apply_lines(old(tx)@, req.items@.take(k))
                && reason@ == decrement_failed_reason(req.items@[k].product_id@)),
{
    let ghost m0 = tx@;

    // Check phase: read every line item against the snapshot and stop at the
    // first one that cannot be satisfied.
    let mut i: usize = 0;
    while i < req.items.len()
        invariant
            i <= req.items@.len(),
            m0 == old(tx)@,
            tx.wf(),
            tx@ == m0,
            forall|j: int| 0 <= j < i ==> line_ok(m0, #[trigger] req.items@[j]),
        decreases req.items@.len() - i,
    {
        let it = &req.items[i];
        let sufficient = match tx.get_quantity(&it.product_id) {
            Some(q) => it.quantity <= q,
            None => false,
        };
        if !sufficient {
            assert(!line_ok(m0, req.items@[i as int]));
            return ReservationOutcome::Failed {
                order_id: req.order_id.clone(),
                user_id: req.user_id.clone(),
                reason: insufficient_reason_text(),
                timestamp: now_rfc3339(),
            };
        }
        i += 1;
    }
    assert(all_lines_ok(m0, req.items@));

    // Decrement phase: every line item checked out, so apply the decrements
    // in order; a row refusing its update aborts the reservation.
    let mut i: usize = 0;
    while i < req.items.len()
        invariant
            i <= req.items@.len(),
            m0 == old(tx)@,
            tx.wf(),
            req.wf(),
            all_lines_ok(m0, req.items@),
            can_apply(m0, req.items@.take(i as int)),
            tx@ == apply_lines(m0, req.items@.take(i as int)),
        decreases req.items@.len() - i,
    {
        let it = &req.items[i];
        let ghost m_before = tx@;
        let applied = tx.decrement(&it.product_id, it.quantity);
        if applied {
            proof {
                assert(line_ok(m_before, req.items@[i as int]));
                assert(tx@ == apply_line(m_before, req.items@[i as int]));
                lemma_apply_lines_snoc(m0, req.items@.take(i as int), req.items@[i as int]);
                lemma_can_apply_snoc(m0, req.items@.take(i as int), req.items@[i as int]);
                assert(req.items@.take(i + 1 as int) =~= req.items@.take(i as int).push(
                    req.items@[i as int],
                ));
            }
            i += 1;
        } else {
            proof {
                assert(req.items@[i as int].wf());
                assert(!line_ok(m_before, req.items@[i as int]));
                lemma_can_apply_blocked(m0, req.items@, i as int);
                assert(can_apply(m0, req.items@.take(i as int)) && !line_ok(
                    apply_lines(m0, req.items@.take(i as int)),
                    req.items@[i as int],
                ) && tx@ == apply_lines(m0, req.items@.take(i as int)));
            }
            return ReservationOutcome::Failed {
                order_id: req.order_id.clone(),
                user_id: req.user_id.clone(),
                reason: decrement_failed_reason_text(&it.product_id),
                timestamp: now_rfc3339(),
            };
        }
    }
    proof {
        assert(req.items@.take(req.items@.len() as int) =~= req.items@);
    }
    ReservationOutcome::Reserved {
        order_id: req.order_id.clone(),
        user_id: req.user_id.clone(),
        timestamp: now_rfc3339(),
    }
}

} // verus!
