use vstd::prelude::*;

use crate::engine::{
    all_lines_ok, apply_line, apply_lines, can_apply, line_ok, reservation_grants,
};
use crate::events::InventoryItem;
use crate::pipeline::checkout_final_map;

verus! {

/// Sufficiency: a reservation whose line items name pairwise distinct
/// products, each with at least the requested quantity in stock, is granted;
/// each named product's stock decreases by exactly its requested quantity,
/// no row appears or disappears, and every product no line item names keeps
/// its quantity.
pub proof fn lemma_sufficiency(m: Map<Seq<char>, int>, items: Seq<InventoryItem>)
    requires
        forall|i: int, j: int|
            0 <= i < j < items.len() ==> (#[trigger] items[i]).product_id@ != (
            #[trigger] items[j]).product_id@,
        all_lines_ok(m, items),
    ensures
        reservation_grants(m, items),
        checkout_final_map(m, items) == apply_lines(m, items),
        apply_lines(m, items).dom() == m.dom(),
        forall|i: int|
            0 <= i < items.len() ==> apply_lines(m, items)[(#[trigger] items[i]).product_id@]
                == m[items[i].product_id@] - items[i].quantity,
        forall|k: Seq<char>|
            #![trigger apply_lines(m, items)[k]]
            m.contains_key(k) && (forall|i: int|
                0 <= i < items.len() ==> (#[trigger] items[i]).product_id@ != k) ==> apply_lines(
                m,
                items,
            )[k] == m[k],
    decreases items.len(),
{
    if items.len() == 0 {
        assert(apply_lines(m, items) == m);
        assert(can_apply(m, items));
    } else {
        let it = items.first();
        let m1 = apply_line(m, it);
        let rest = items.drop_first();
        assert(line_ok(m, it));
        assert(m.contains_key(it.product_id@));
        assert(m1.dom() =~= m.dom());
        assert forall|i: int| 0 <= i < rest.len() implies line_ok(m1, #[trigger] rest[i]) by {
            assert(rest[i] == items[i + 1]);
            assert(items[i + 1].product_id@ != it.product_id@);
            assert(line_ok(m, items[i + 1]));
        }
        assert forall|i: int, j: int| 0 <= i < j < rest.len() implies (
        #[trigger] rest[i]).product_id@ != (#[trigger] rest[j]).product_id@ by {
            assert(rest[i] == items[i + 1]);
            assert(rest[j] == items[j + 1]);
        }
        lemma_sufficiency(m1, rest);
        assert(apply_lines(m, items) == apply_lines(m1, rest));
        assert(can_apply(m, items));

        assert forall|i: int| 0 <= i < items.len() implies apply_lines(m, items)[(
        #[trigger] items[i]).product_id@] == m[items[i].product_id@] - items[i].quantity by {
            if i == 0 {
                assert(items[0] == it);
                assert forall|j: int| 0 <= j < rest.len() implies (#[trigger] rest[j]).product_id@
                    != it.product_id@ by {
                    assert(rest[j] == items[j + 1]);
                }
                assert(m1.contains_key(it.product_id@));
                assert(apply_lines(m1, rest)[it.product_id@] == m1[it.product_id@]);
            } else {
                assert(items[i] == rest[i - 1]);
                assert(items[i].product_id@ != it.product_id@);
                assert(m1[items[i].product_id@] == m[items[i].product_id@]);
            }
        }

        assert forall|k: Seq<char>|
            #![trigger apply_lines(m, items)[k]]
            m.contains_key(k) && (forall|i: int|
                0 <= i < items.len() ==> (#[trigger] items[i]).product_id@
                    != k) implies apply_lines(m, items)[k] == m[k] by {
            assert(items[0].product_id@ != k);
            assert(m1[k] == m[k]);
            assert(m1.contains_key(k));
            assert forall|j: int| 0 <= j < rest.len() implies (#[trigger] rest[j]).product_id@
                != k by {
                assert(rest[j] == items[j + 1]);
            }
            assert(apply_lines(m1, rest)[k] == m1[k]);
        }
    }
}

/// All-or-nothing: a reservation with even one line item asking for more than
/// the product's stock (or naming a product with no row) is refused, and no
/// product's quantity changes.
pub proof fn lemma_all_or_nothing(m: Map<Seq<char>, int>, items: Seq<InventoryItem>, i: int)
    requires
        0 <= i < items.len(),
        !line_ok(m, items[i]),
    ensures
        !reservation_grants(m, items),
        checkout_final_map(m, items) == m,
{
    assert(!all_lines_ok(m, items));
}

/// Short-circuit ordering: with line items [a: satisfiable, b: insufficient,
/// c: satisfiable], the reservation is refused and neither a's product nor
/// c's product loses any stock — the stock state is left exactly as it was.
pub proof fn lemma_short_circuit(
    m: Map<Seq<char>, int>,
    a: InventoryItem,
    b: InventoryItem,
    c: InventoryItem,
)
    requires
        line_ok(m, a),
        !line_ok(m, b),
        line_ok(m, c),
    ensures
        !reservation_grants(m, seq![a, b, c]),
        checkout_final_map(m, seq![a, b, c]) == m,
        checkout_final_map(m, seq![a, b, c])[a.product_id@] == m[a.product_id@],
        checkout_final_map(m, seq![a, b, c])[c.product_id@] == m[c.product_id@],
{
    assert(seq![a, b, c][1] == b);
    lemma_all_or_nothing(m, seq![a, b, c], 1);
}

} // verus!
