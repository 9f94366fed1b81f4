use vstd::prelude::*;

verus! {

/// One persisted stock row: a product and how many units of it are on hand.
pub struct StockRow {
    pub product_id: String,
    pub quantity: i32,
}

/// The stock state a sequence of rows stands for: product identifier to
/// quantity, later rows winning (well-formed stores never repeat a key).
pub open spec fn rows_map(rows: Seq<StockRow>) -> Map<Seq<char>, int>
    decreases rows.len(),
{
    if rows.len() == 0 {
        Map::empty()
    } else {
        rows_map(rows.drop_last()).insert(
            rows.last().product_id@,
            rows.last().quantity as int,
        )
    }
}

/// Row well-formedness: product identifiers are unique and no quantity is
/// negative.
pub open spec fn rows_wf(rows: Seq<StockRow>) -> bool {
    &&& forall|i: int, j: int|
        0 <= i < j < rows.len() ==> (#[trigger] rows[i]).product_id@ != (
        #[trigger] rows[j]).product_id@
    &&& forall|i: int| 0 <= i < rows.len() ==> 0 <= (#[trigger] rows[i]).quantity
}

/// The quantity a stock state holds for a product, counting an absent row as
/// zero stock.
pub open spec fn stock_of(m: Map<Seq<char>, int>, k: Seq<char>) -> int {
    if m.contains_key(k) {
        m[k]
    } else {
        0
    }
}

/// When an additive upsert can take effect: the added amount is non-negative
/// and the new total still fits in the stock column.
pub open spec fn upsert_ok(m: Map<Seq<char>, int>, k: Seq<char>, amount: int) -> bool {
    0 <= amount && stock_of(m, k) + amount <= i32::MAX
}

proof fn lemma_rows_map_index(rows: Seq<StockRow>, i: int)
    requires
        forall|p: int, q: int|
            0 <= p < q < rows.len() ==> (#[trigger] rows[p]).product_id@ != (
            #[trigger] rows[q]).product_id@,
        0 <= i < rows.len(),
    ensures
        rows_map(rows).contains_key(rows[i].product_id@),
        rows_map(rows)[rows[i].product_id@] == rows[i].quantity as int,
    decreases rows.len(),
{
    if i == rows.len() - 1 {
    } else {
        assert(rows.drop_last()[i] == rows[i]);
        lemma_rows_map_index(rows.drop_last(), i);
        assert(rows[i].product_id@ != rows.last().product_id@);
    }
}

proof fn lemma_rows_map_absent(rows: Seq<StockRow>, k: Seq<char>)
    requires
        forall|i: int| 0 <= i < rows.len() ==> (#[trigger] rows[i]).product_id@ != k,
    ensures
        !rows_map(rows).contains_key(k),
    decreases rows.len(),
{
    if rows.len() > 0 {
        assert(forall|i: int|
            0 <= i < rows.drop_last().len() ==> (#[trigger] rows.drop_last()[i]) == rows[i]);
        lemma_rows_map_absent(rows.drop_last(), k);
    }
}

proof fn lemma_rows_map_update(rows: Seq<StockRow>, i: int, row: StockRow)
    requires
        forall|p: int, q: int|
            0 <= p < q < rows.len() ==> (#[trigger] rows[p]).product_id@ != (
            #[trigger] rows[q]).product_id@,
        0 <= i < rows.len(),
        row.product_id@ == rows[i].product_id@,
    ensures
        rows_map(rows.update(i, row)) =~= rows_map(rows).insert(
            row.product_id@,
            row.quantity as int,
        ),
    decreases rows.len(),
{
    let updated = rows.update(i, row);
    if i == rows.len() - 1 {
        assert(updated.drop_last() =~= rows.drop_last());
        assert(updated.last() == row);
    } else {
        assert(updated.drop_last() =~= rows.drop_last().update(i, row));
        assert(forall|p: int|
            0 <= p < rows.drop_last().len() ==> (#[trigger] rows.drop_last()[p]) == rows[p]);
        lemma_rows_map_update(rows.drop_last(), i, row);
        assert(updated.last() == rows.last());
        assert(rows.last().product_id@ != row.product_id@);
    }
}

proof fn lemma_rows_map_congruent(a: Seq<StockRow>, b: Seq<StockRow>)
    requires
        a.len() == b.len(),
        forall|i: int|
            0 <= i < a.len() ==> (#[trigger] a[i]).product_id@ == (#[trigger] b[i]).product_id@
                && a[i].quantity == b[i].quantity,
    ensures
        rows_map(a) =~= rows_map(b),
    decreases a.len(),
{
    if a.len() > 0 {
        assert(forall|i: int| 0 <= i < a.drop_last().len() ==> (#[trigger] a.drop_last()[i]) == a[i]);
        assert(forall|i: int| 0 <= i < b.drop_last().len() ==> (#[trigger] b.drop_last()[i]) == b[i]);
        lemma_rows_map_congruent(a.drop_last(), b.drop_last());
    }
}

/// Authoritative stock counts, one row per product. This is the storage the
/// reservation pipeline reads and mutates; all operations keep quantities
/// non-negative.
pub struct InventoryStore {
    rows: Vec<StockRow>,
}

impl View for InventoryStore {
    type V = Map<Seq<char>, int>;

    closed spec fn view(&self) -> Map<Seq<char>, int> {
        rows_map(self.rows@)
    }
}

impl InventoryStore {
    pub closed spec fn wf(&self) -> bool {
        rows_wf(self.rows@)
    }

    pub fn new() -> (s: Self)
        ensures
            s.wf(),
            s@ == Map::<Seq<char>, int>::empty(),
    {
        InventoryStore { rows: Vec::new() }
    }

    fn find_row(&self, product_id: &String) -> (r: Option<usize>)
        ensures
            match r {
                Option::Some(i) => i < self.rows@.len() && self.rows@[i as int].product_id@
                    == product_id@,
                Option::None => forall|i: int|
                    0 <= i < self.rows@.len() ==> (#[trigger] self.rows@[i]).product_id@
                        != product_id@,
            },
    {
        let mut j: usize = 0;
        while j < self.rows.len()
            invariant
                j <= self.rows@.len(),
                forall|i: int|
                    0 <= i < j ==> (#[trigger] self.rows@[i]).product_id@ != product_id@,
            decreases self.rows@.len() - j,
        {
            if self.rows[j].product_id == *product_id {
                return Some(j);
            }
            j += 1;
        }
        None
    }

    /// The current quantity for a product, or `None` when it has no row.
    pub fn get_quantity(&self, product_id: &String) -> (r: Option<i32>)
        requires
            self.wf(),
        ensures
            match r {
                Option::Some(q) => self@.contains_key(product_id@) && self@[product_id@] == q
                    && 0 <= q,
                Option::None => !self@.contains_key(product_id@),
            },
    {
        match self.find_row(product_id) {
            Some(i) => {
                proof {
                    lemma_rows_map_index(self.rows@, i as int);
                }
                Some(self.rows[i].quantity)
            },
            None => {
                proof {
                    lemma_rows_map_absent(self.rows@, product_id@);
                }
                None
            },
        }
    }

    /// Conditional decrement: takes `amount` units off the product's row only
    /// when the row exists and holds at least `amount`; reports whether it
    /// took effect. This is the guarded update that keeps quantities
    /// non-negative however callers interleave.
    pub fn decrement(&mut self, product_id: &String, amount: i32) -> (r: bool)
        requires
            old(self).wf(),
        ensures
            final(self).wf(),
            r == (old(self)@.contains_key(product_id@) && 0 <= amount && amount <= old(
                self,
            )@[product_id@]),
            r ==> final(self)@ == old(self)@.insert(product_id@, old(self)@[product_id@] - amount),
            !r ==> final(self)@ == old(self)@,
    {
        match self.find_row(product_id) {
            Some(i) => {
                proof {
                    lemma_rows_map_index(self.rows@, i as int);
                }
                let cur = self.rows[i].quantity;
                if 0 <= amount && amount <= cur {
                    let ghost old_rows = self.rows@;
                    let new_q = cur - amount;
                    self.rows[i].quantity = new_q;
                    proof {
                        let row = self.rows@[i as int];
                        assert(self.rows@ =~= old_rows.update(i as int, row));
                        lemma_rows_map_update(old_rows, i as int, row);
                        assert(rows_wf(self.rows@));
                    }
                    true
                } else {
                    false
                }
            },
            None => {
                proof {
                    lemma_rows_map_absent(self.rows@, product_id@);
                }
                false
            },
        }
    }

    /// Additive upsert: creates the product's row at `amount` when absent,
    /// else adds `amount` to it. Reports whether it took effect; it refuses a
    /// negative amount and a total beyond the stock column's range, changing
    /// nothing then.
    pub fn upsert_add(&mut self, product_id: &String, amount: i32) -> (r: bool)
        requires
            old(self).wf(),
        ensures
            final(self).wf(),
            r == upsert_ok(old(self)@, product_id@, amount as int),
            r ==> final(self)@ == old(self)@.insert(
                product_id@,
                stock_of(old(self)@, product_id@) + amount,
            ),
            !r ==> final(self)@ == old(self)@,
    {
        if amount < 0 {
            return false;
        }
        match self.find_row(product_id) {
            Some(i) => {
                proof {
                    lemma_rows_map_index(self.rows@, i as int);
                }
                let cur = self.rows[i].quantity;
                if amount <= i32::MAX - cur {
                    let ghost old_rows = self.rows@;
                    self.rows[i].quantity = cur + amount;
                    proof {
                        let row = self.rows@[i as int];
                        assert(self.rows@ =~= old_rows.update(i as int, row));
                        lemma_rows_map_update(old_rows, i as int, row);
                        assert(rows_wf(self.rows@));
                    }
                    true
                } else {
                    false
                }
            },
            None => {
                proof {
                    lemma_rows_map_absent(self.rows@, product_id@);
                }
                let ghost old_rows = self.rows@;
                self.rows.push(StockRow { product_id: product_id.clone(), quantity: amount });
                proof {
                    assert(self.rows@.drop_last() =~= old_rows);
                    assert(rows_wf(self.rows@));
                }
                true
            },
        }
    }

    /// Sets the product's row to exactly `quantity`, creating the row when
    /// absent. Reports whether it took effect; a negative quantity is refused
    /// and changes nothing.
    pub fn set_quantity(&mut self, product_id: &String, quantity: i32) -> (r: bool)
        requires
            old(self).wf(),
        ensures
            final(self).wf(),
            r == (0 <= quantity),
            r ==> final(self)@ == old(self)@.insert(product_id@, quantity as int),
            !r ==> final(self)@ == old(self)@,
    {
        if quantity < 0 {
            return false;
        }
        match self.find_row(product_id) {
            Some(i) => {
                let ghost old_rows = self.rows@;
                self.rows[i].quantity = quantity;
                proof {
                    let row = self.rows@[i as int];
                    assert(self.rows@ =~= old_rows.update(i as int, row));
                    lemma_rows_map_update(old_rows, i as int, row);
                    assert(rows_wf(self.rows@));
                }
                true
            },
            None => {
                let ghost old_rows = self.rows@;
                self.rows.push(StockRow { product_id: product_id.clone(), quantity });
                proof {
                    assert(self.rows@.drop_last() =~= old_rows);
                    assert(rows_wf(self.rows@));
                }
                true
            },
        }
    }

    /// Opens a transaction: a snapshot of the store that reads and decrements
    /// apply to until the caller commits or rolls it back.
    pub fn begin(&self) -> (tx: Transaction)
        requires
            self.wf(),
        ensures
            tx.wf(),
            tx@ == self@,
    {
        let mut rows: Vec<StockRow> = Vec::new();
        let mut j: usize = 0;
        while j < self.rows.len()
            invariant
                j <= self.rows@.len(),
                rows@.len() == j,
                forall|i: int|
                    0 <= i < j ==> (#[trigger] rows@[i]).product_id@ == (
                    #[trigger] self.rows@[i]).product_id@ && rows@[i].quantity
                        == self.rows@[i].quantity,
            decreases self.rows@.len() - j,
        {
            let row = &self.rows[j];
            rows.push(StockRow { product_id: row.product_id.clone(), quantity: row.quantity });
            j += 1;
        }
        proof {
            lemma_rows_map_congruent(rows@, self.rows@);
            assert forall|p: int, q: int| 0 <= p < q < rows@.len() implies (
            #[trigger] rows@[p]).product_id@ != (#[trigger] rows@[q]).product_id@ by {
                assert(rows@[p].product_id@ == self.rows@[p].product_id@);
                assert(rows@[q].product_id@ == self.rows@[q].product_id@);
            }
            assert forall|p: int| 0 <= p < rows@.len() implies 0 <= (
            #[trigger] rows@[p]).quantity by {
                assert(rows@[p].quantity == self.rows@[p].quantity);
            }
            assert(rows_wf(rows@));
        }
        Transaction { store: InventoryStore { rows } }
    }

    /// Makes every read and decrement performed on the transaction the
    /// store's new authoritative state.
    pub fn commit(&mut self, tx: Transaction)
        requires
            tx.wf(),
        ensures
            final(self).wf(),
            final(self)@ == tx@,
    {
        self.rows = tx.store.rows;
    }
}

/// A caller-controlled transaction over the inventory store: its operations
/// see and mutate a consistent snapshot, and touch the store itself only
/// through `InventoryStore::commit`.
pub struct Transaction {
    store: InventoryStore,
}

impl View for Transaction {
    type V = Map<Seq<char>, int>;

    closed spec fn view(&self) -> Map<Seq<char>, int> {
        self.store@
    }
}

impl Transaction {
    pub closed spec fn wf(&self) -> bool {
        self.store.wf()
    }

    /// The quantity the transaction's snapshot holds for a product.
    pub fn get_quantity(&self, product_id: &String) -> (r: Option<i32>)
        requires
            self.wf(),
        ensures
            match r {
                Option::Some(q) => self@.contains_key(product_id@) && self@[product_id@] == q
                    && 0 <= q,
                Option::None => !self@.contains_key(product_id@),
            },
    {
        self.store.get_quantity(product_id)
    }

    /// Conditional decrement inside the transaction; see
    /// `InventoryStore::decrement`.
    pub fn decrement(&mut self, product_id: &String, amount: i32) -> (r: bool)
        requires
            old(self).wf(),
        ensures
            final(self).wf(),
            r == (old(self)@.contains_key(product_id@) && 0 <= amount && amount <= old(
                self,
            )@[product_id@]),
            r ==> final(self)@ == old(self)@.insert(product_id@, old(self)@[product_id@] - amount),
            !r ==> final(self)@ == old(self)@,
    {
        self.store.decrement(product_id, amount)
    }

    /// Discards the transaction: nothing it did reaches the store.
    pub fn rollback(self) {
        let _ = self;
    }
}

} // verus!
