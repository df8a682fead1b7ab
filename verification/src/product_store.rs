use vstd::prelude::*;
use vstd::seq_lib::group_to_multiset_ensures;
use crate::errors::ApiError;
use crate::product::{Product, UpdateProductRequest, spec_apply_patch, spec_deactivated};

verus! {

/// The index of the first row at or after `i` with this id, active or not.
pub open spec fn product_index_by_id(rows: Seq<Product>, id: Seq<char>, i: int) -> Option<int>
    decreases rows.len() - i,
{
    if i < 0 || i >= rows.len() {
        None
    } else if rows[i].id@ == id {
        Some(i)
    } else {
        product_index_by_id(rows, id, i + 1)
    }
}

/// The index of the first row at or after `i` with this sku.
pub open spec fn product_index_by_sku(rows: Seq<Product>, sku: Seq<char>, i: int) -> Option<int>
    decreases rows.len() - i,
{
    if i < 0 || i >= rows.len() {
        None
    } else if rows[i].sku@ == sku {
        Some(i)
    } else {
        product_index_by_sku(rows, sku, i + 1)
    }
}

/// The index of the first active row at or after `i` with this id: what a
/// query filtered to the active flag hits.
pub open spec fn active_index_by_id(rows: Seq<Product>, id: Seq<char>, i: int) -> Option<int>
    decreases rows.len() - i,
{
    if i < 0 || i >= rows.len() {
        None
    } else if rows[i].id@ == id && rows[i].is_active {
        Some(i)
    } else {
        active_index_by_id(rows, id, i + 1)
    }
}

/// The product an id lookup filtered to active rows returns.
pub open spec fn spec_find_active(rows: Seq<Product>, id: Seq<char>) -> Option<Product> {
    match active_index_by_id(rows, id, 0) {
        Some(k) => Some(rows[k]),
        None => None,
    }
}

pub open spec fn product_id_taken(rows: Seq<Product>, id: Seq<char>) -> bool {
    product_index_by_id(rows, id, 0) is Some
}

pub open spec fn sku_taken(rows: Seq<Product>, sku: Seq<char>) -> bool {
    product_index_by_sku(rows, sku, 0) is Some
}

/// The unique-column constraints of the product table: no two rows share an
/// id or a sku, soft-deleted rows included.
pub open spec fn unique_products(rows: Seq<Product>) -> bool {
    forall|i: int, j: int|
        0 <= i < j < rows.len() ==> rows[i].id@ != rows[j].id@ && rows[i].sku@ != rows[j].sku@
}

/// The predicate an active-only query filters with.
pub open spec fn is_active_pred() -> spec_fn(Product) -> bool {
    |p: Product| p.is_active
}

/// The active rows, in table order: what an active-only listing draws from.
pub open spec fn active_products(rows: Seq<Product>) -> Seq<Product> {
    rows.filter(is_active_pred())
}

/// Ordered by creation time, newest first.
pub open spec fn sorted_desc(s: Seq<Product>) -> bool {
    forall|i: int, j: int| 0 <= i < j < s.len() ==> s[i].created_at >= s[j].created_at
}

/// What an id lookup starting at `i` means, element by element.
pub proof fn lemma_product_id_index_props(rows: Seq<Product>, id: Seq<char>, i: int)
    requires
        0 <= i <= rows.len(),
    ensures
        match product_index_by_id(rows, id, i) {
            Some(k) => i <= k < rows.len() && rows[k].id@ == id && (forall|j: int|
                i <= j < k ==> rows[j].id@ != id),
            None => forall|j: int| i <= j < rows.len() ==> rows[j].id@ != id,
        },
    decreases rows.len() - i,
{
    if i < rows.len() && rows[i].id@ != id {
        lemma_product_id_index_props(rows, id, i + 1);
    }
}

/// The same, for a sku lookup.
pub proof fn lemma_sku_index_props(rows: Seq<Product>, sku: Seq<char>, i: int)
    requires
        0 <= i <= rows.len(),
    ensures
        match product_index_by_sku(rows, sku, i) {
            Some(k) => i <= k < rows.len() && rows[k].sku@ == sku && (forall|j: int|
                i <= j < k ==> rows[j].sku@ != sku),
            None => forall|j: int| i <= j < rows.len() ==> rows[j].sku@ != sku,
        },
    decreases rows.len() - i,
{
    if i < rows.len() && rows[i].sku@ != sku {
        lemma_sku_index_props(rows, sku, i + 1);
    }
}

/// The same, for an id lookup filtered to active rows.
pub proof fn lemma_active_index_props(rows: Seq<Product>, id: Seq<char>, i: int)
    requires
        0 <= i <= rows.len(),
    ensures
        match active_index_by_id(rows, id, i) {
            Some(k) => i <= k < rows.len() && rows[k].id@ == id && rows[k].is_active && (
            forall|j: int| i <= j < k ==> !(rows[j].id@ == id && rows[j].is_active)),
            None => forall|j: int|
                i <= j < rows.len() ==> !(rows[j].id@ == id && rows[j].is_active),
        },
    decreases rows.len() - i,
{
    if i < rows.len() && !(rows[i].id@ == id && rows[i].is_active) {
        lemma_active_index_props(rows, id, i + 1);
    }
}

/// Appending a fresh active row makes it the one an active id lookup hits.
pub proof fn lemma_active_index_push(rows: Seq<Product>, p: Product, id: Seq<char>, i: int)
    requires
        0 <= i <= rows.len(),
        forall|j: int| 0 <= j < rows.len() ==> rows[j].id@ != id,
        p.id@ == id,
        p.is_active,
    ensures
        active_index_by_id(rows.push(p), id, i) == Some(rows.len() as int),
    decreases rows.len() - i,
{
    if i < rows.len() {
        lemma_active_index_push(rows, p, id, i + 1);
    }
}

/// The product table: rows behind the repository operations, constrained by
/// the unique-column invariant.
pub struct ProductStore {
    rows: Vec<Product>,
}

impl View for ProductStore {
    type V = Seq<Product>;

    closed spec fn view(&self) -> Seq<Product> {
        self.rows@
    }
}

/// Inserts a product into a newest-first run, keeping it ordered.
fn insert_desc(out: &mut Vec<Product>, p: Product)
    requires
        sorted_desc(old(out)@),
    ensures
        sorted_desc(final(out)@),
        final(out)@.to_multiset() == old(out)@.to_multiset().insert(p),
        final(out)@.len() == old(out)@.len() + 1,
{
    broadcast use group_to_multiset_ensures;

    let mut k: usize = 0;
    while k < out.len() && out[k].created_at >= p.created_at
        invariant
            k <= out.len(),
            sorted_desc(out@),
            forall|j: int| 0 <= j < k ==> out@[j].created_at >= p.created_at,
        decreases out.len() - k,
    {
        k += 1;
    }
    let ghost pre = out@;
    out.insert(k, p);
    proof {
        pre.insert_ensures(k as int, p);
        assert forall|a: int, b: int| 0 <= a < b < out@.len() implies out@[a].created_at
            >= out@[b].created_at by {
            let ki = k as int;
            if a < ki {
                assert(out@[a] == pre[a]);
            } else if a == ki {
                assert(out@[a] == p);
            } else {
                assert(out@[a] == pre[a - 1]);
            }
            if b < ki {
                assert(out@[b] == pre[b]);
            } else if b == ki {
                assert(out@[b] == p);
            } else {
                assert(out@[b] == pre[b - 1]);
            }
        }
    }
}

impl ProductStore {
    pub open spec fn wf(&self) -> bool {
        unique_products(self@)
    }

    /// How many rows the table holds, soft-deleted ones included.
    pub fn len(&self) -> (r: usize)
        ensures
            r == self@.len(),
    {
        self.rows.len()
    }

    pub fn new() -> (r: ProductStore)
        ensures
            r@ == Seq::<Product>::empty(),
            r.wf(),
    {
        ProductStore { rows: Vec::new() }
    }

    /// Inserts a fully-built row; the caller generated the id and supplied
    /// the timestamps. Fails, as the table's unique columns would make it
    /// fail, when the id or the sku is already present.
    pub fn insert(&mut self, p: Product) -> (r: Result<(), ApiError>)
        requires
            old(self).wf(),
        ensures
            final(self).wf(),
            r matches Ok(u) ==> final(self)@ == old(self)@.push(p) && !product_id_taken(
                old(self)@,
                p.id@,
            ) && !sku_taken(old(self)@, p.sku@),
            r matches Err(e) ==> e == ApiError::Internal && final(self)@ == old(self)@ && (
            product_id_taken(old(self)@, p.id@) || sku_taken(old(self)@, p.sku@)),
    {
        if self.find_index_by_id(&p.id).is_some() {
            return Err(ApiError::Internal);
        }
        if self.find_index_by_sku(&p.sku).is_some() {
            return Err(ApiError::Internal);
        }
        proof {
            lemma_product_id_index_props(self@, p.id@, 0);
            lemma_sku_index_props(self@, p.sku@, 0);
        }
        let ghost old_rows = self@;
        self.rows.push(p);
        proof {
            assert forall|i: int, j: int| 0 <= i < j < self@.len() implies self@[i].id@
                != self@[j].id@ && self@[i].sku@ != self@[j].sku@ by {
                if j < old_rows.len() {
                    assert(unique_products(old_rows));
                } else {
                    assert(self@[i] == old_rows[i]);
                }
            }
        }
        Ok(())
    }

    /// The position of the row with this id, active or not.
    fn find_index_by_id(&self, id: &String) -> (r: Option<usize>)
        ensures
            match r {
                Some(k) => k < self@.len() && product_index_by_id(self@, id@, 0) == Some(
                    k as int,
                ),
                None => product_index_by_id(self@, id@, 0) is None,
            },
    {
        let mut i: usize = 0;
        while i < self.rows.len()
            invariant
                i <= self.rows.len(),
                product_index_by_id(self@, id@, 0) == product_index_by_id(self@, id@, i as int),
            decreases self.rows.len() - i,
        {
            let row = &self.rows[i];
            if row.id == *id {
                return Some(i);
            }
            i += 1;
        }
        None
    }

    /// The position of the row with this sku.
    fn find_index_by_sku(&self, sku: &String) -> (r: Option<usize>)
        ensures
            match r {
                Some(k) => k < self@.len() && product_index_by_sku(self@, sku@, 0) == Some(
                    k as int,
                ),
                None => product_index_by_sku(self@, sku@, 0) is None,
            },
    {
        let mut i: usize = 0;
        while i < self.rows.len()
            invariant
                i <= self.rows.len(),
                product_index_by_sku(self@, sku@, 0) == product_index_by_sku(self@, sku@, i as int),
            decreases self.rows.len() - i,
        {
            let row = &self.rows[i];
            if row.sku == *sku {
                return Some(i);
            }
            i += 1;
        }
        None
    }

    /// The position of the active row with this id: the row an update, a
    /// soft delete or an active-only read addresses.
    fn find_active_index(&self, id: &String) -> (r: Option<usize>)
        ensures
            match r {
                Some(k) => k < self@.len() && active_index_by_id(self@, id@, 0) == Some(
                    k as int,
                ),
                None => active_index_by_id(self@, id@, 0) is None,
            },
    {
        let mut i: usize = 0;
        while i < self.rows.len()
            invariant
                i <= self.rows.len(),
                active_index_by_id(self@, id@, 0) == active_index_by_id(self@, id@, i as int),
            decreases self.rows.len() - i,
        {
            let row = &self.rows[i];
            if row.is_active && row.id == *id {
                return Some(i);
            }
            i += 1;
        }
        None
    }

    /// Reads the active product with this id; a soft-deleted row reads as
    /// absent.
    pub fn get_active_by_id(&self, id: &String) -> (r: Option<Product>)
        ensures
            match r {
                Some(p) => spec_find_active(self@, id@) == Some(p),
                None => spec_find_active(self@, id@) is None,
            },
    {
        match self.find_active_index(id) {
            Some(k) => Some(self.rows[k].clone()),
            None => None,
        }
    }

    /// Every active product, newest creation first; soft-deleted rows never
    /// appear.
    pub fn list_active(&self) -> (r: Vec<Product>)
        ensures
            r@.to_multiset() == active_products(self@).to_multiset(),
            sorted_desc(r@),
    {
        broadcast use group_to_multiset_ensures;

        let mut out: Vec<Product> = Vec::new();
        let mut i: usize = 0;
        while i < self.rows.len()
            invariant
                i <= self.rows.len(),
                sorted_desc(out@),
                out@.to_multiset() == self@.subrange(0, i as int).filter(
                    is_active_pred(),
                ).to_multiset(),
            decreases self.rows.len() - i,
        {
            let ghost prefix = self@.subrange(0, i as int);
            let ghost next_prefix = self@.subrange(0, i as int + 1);
            proof {
                broadcast use group_to_multiset_ensures;

                reveal(Seq::filter);
                assert(next_prefix.drop_last() =~= prefix);
                assert(next_prefix.last() == self@[i as int]);
            }
            let row = &self.rows[i];
            if row.is_active {
                insert_desc(&mut out, row.clone());
                proof {
                    broadcast use group_to_multiset_ensures;

                    assert(next_prefix.filter(is_active_pred()) == prefix.filter(
                        is_active_pred(),
                    ).push(self@[i as int]));
                    assert(prefix.filter(is_active_pred()).push(self@[i as int]).to_multiset()
                        == prefix.filter(is_active_pred()).to_multiset().insert(
                        self@[i as int],
                    ));
                }
            } else {
                proof {
                    assert(next_prefix.filter(is_active_pred()) == prefix.filter(
                        is_active_pred(),
                    ));
                }
            }
            i += 1;
        }
        proof {
            assert(self@.subrange(0, self@.len() as int) =~= self@);
        }
        out
    }

    /// Applies a partial update to the active row with this id, refreshing
    /// its update time; reports whether a row was affected. A soft-deleted
    /// or absent row is never touched.
    pub fn update_partial(&mut self, id: &String, patch: &UpdateProductRequest, now: i64) -> (r:
        bool)
        requires
            old(self).wf(),
        ensures
            final(self).wf(),
            match active_index_by_id(old(self)@, id@, 0) {
                Some(k) => r == true && final(self)@ == old(self)@.update(
                    k,
                    spec_apply_patch(old(self)@[k], *patch, now),
                ),
                None => r == false && final(self)@ == old(self)@,
            },
    {
        let k = match self.find_active_index(id) {
            Some(k) => k,
            None => {
                return false;
            },
        };
        let ghost old_rows = self@;
        let row = &self.rows[k];
        let updated = Product {
            id: row.id.clone(),
            name: match &patch.name {
                Some(n) => n.clone(),
                None => row.name.clone(),
            },
            description: match &patch.description {
                Some(d) => Some(d.clone()),
                None => crate::product::clone_opt_string(&row.description),
            },
            price: match patch.price {
                Some(v) => v,
                None => row.price,
            },
            cost: row.cost,
            sku: row.sku.clone(),
            barcode: crate::product::clone_opt_string(&row.barcode),
            category: row.category.clone(),
            stock: row.stock,
            min_stock: row.min_stock,
            image_url: crate::product::clone_opt_string(&row.image_url),
            is_active: row.is_active,
            created_at: row.created_at,
            updated_at: now,
        };
        proof {
            assert(updated == spec_apply_patch(old_rows[k as int], *patch, now));
        }
        self.rows.set(k, updated);
        proof {
            Self::lemma_same_keys_update(old_rows, self@, k as int);
        }
        true
    }

    /// Soft-deletes the active row with this id: clears the active flag and
    /// refreshes the update time; the row persists. Reports whether a row
    /// was affected; a second delete of the same id affects nothing.
    pub fn soft_delete(&mut self, id: &String, now: i64) -> (r: bool)
        requires
            old(self).wf(),
        ensures
            final(self).wf(),
            match active_index_by_id(old(self)@, id@, 0) {
                Some(k) => r == true && final(self)@ == old(self)@.update(
                    k,
                    spec_deactivated(old(self)@[k], now),
                ),
                None => r == false && final(self)@ == old(self)@,
            },
    {
        let k = match self.find_active_index(id) {
            Some(k) => k,
            None => {
                return false;
            },
        };
        let ghost old_rows = self@;
        let row = &self.rows[k];
        let deactivated = Product {
            id: row.id.clone(),
            name: row.name.clone(),
            description: crate::product::clone_opt_string(&row.description),
            price: row.price,
            cost: row.cost,
            sku: row.sku.clone(),
            barcode: crate::product::clone_opt_string(&row.barcode),
            category: row.category.clone(),
            stock: row.stock,
            min_stock: row.min_stock,
            image_url: crate::product::clone_opt_string(&row.image_url),
            is_active: false,
            created_at: row.created_at,
            updated_at: now,
        };
        proof {
            assert(deactivated == spec_deactivated(old_rows[k as int], now));
        }
        self.rows.set(k, deactivated);
        proof {
            Self::lemma_same_keys_update(old_rows, self@, k as int);
        }
        true
    }

    /// Replacing a row with one that keeps its id and sku preserves the
    /// unique-column invariant.
    proof fn lemma_same_keys_update(old_rows: Seq<Product>, new_rows: Seq<Product>, k: int)
        requires
            unique_products(old_rows),
            0 <= k < old_rows.len(),
            new_rows.len() == old_rows.len(),
            new_rows[k].id@ == old_rows[k].id@,
            new_rows[k].sku@ == old_rows[k].sku@,
            forall|j: int| 0 <= j < old_rows.len() && j != k ==> new_rows[j] == old_rows[j],
        ensures
            unique_products(new_rows),
    {
        assert forall|i: int, j: int| 0 <= i < j < new_rows.len() implies new_rows[i].id@
            != new_rows[j].id@ && new_rows[i].sku@ != new_rows[j].sku@ by {
            assert(old_rows[i].id@ != old_rows[j].id@ && old_rows[i].sku@ != old_rows[j].sku@);
        }
    }
}

} // verus!
