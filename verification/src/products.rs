use vstd::prelude::*;
use crate::errors::ApiError;
use crate::ids::fresh_id;
use crate::product::{
    CreateProductRequest, Product, UpdateProductRequest, spec_apply_patch, spec_deactivated,
    spec_patch_is_empty, spec_product_of_request,
};
use crate::product_store::{
    ProductStore, active_index_by_id, active_products, is_active_pred, lemma_active_index_props,
    lemma_active_index_push, lemma_product_id_index_props, product_id_taken, sku_taken, sorted_desc,
    spec_find_active, unique_products,
};
use crate::validation::{valid_create_product, validate_create_product};

verus! {

/// A successful creation: the generated id, echoed to the client.
#[derive(Debug)]
pub struct CreateProductOk {
    pub id: String,
}

/// A listing: every active product, newest first, with its count.
#[derive(Debug)]
pub struct ProductListing {
    pub products: Vec<Product>,
    pub count: usize,
}

/// The creation pipeline: validate the payload, generate a fresh id, insert
/// the row with the active flag forced true and both timestamps set to the
/// same creation instant `now`. An insert the table's unique columns refuse
/// reads as an internal failure; every failure leaves the table unchanged.
pub fn create_product(store: &mut ProductStore, payload: &CreateProductRequest, now: i64) -> (r:
    Result<CreateProductOk, ApiError>)
    requires
        old(store).wf(),
    ensures
        final(store).wf(),
        r == Err::<CreateProductOk, ApiError>(ApiError::Validation) <==> !valid_create_product(
            *payload,
        ),
        r matches Err(e) ==> final(store)@ == old(store)@ && (e == ApiError::Validation || e
            == ApiError::Internal),
        r matches Ok(ok) ==> {
            let row = final(store)@.last();
            &&& final(store)@ == old(store)@.push(row)
            &&& row == spec_product_of_request(*payload, row.id, now)
            &&& row.id@.len() == 36
            &&& ok.id == row.id
            &&& !product_id_taken(old(store)@, row.id@)
            &&& !sku_taken(old(store)@, payload.sku@)
            &&& row.is_active == true
            &&& row.created_at == now
            &&& row.updated_at == now
        },
{
    let row = match build_product_row(payload, now) {
        Ok(row) => row,
        Err(e) => {
            return Err(e);
        },
    };
    let product_id = row.id.clone();
    match store.insert(row) {
        Ok(u) => (),
        Err(e) => {
            return Err(e);
        },
    }
    Ok(CreateProductOk { id: product_id })
}

/// The creation decision up to the insert: validate the payload, generate a
/// fresh id, and hand back the fully-built row to persist, with the active
/// flag forced true and both timestamps set to the same creation instant.
/// Fails exactly on a bad payload.
pub fn build_product_row(payload: &CreateProductRequest, now: i64) -> (r: Result<
    Product,
    ApiError,
>)
    ensures
        r is Err <==> !valid_create_product(*payload),
        r matches Err(e) ==> e == ApiError::Validation,
        r matches Ok(row) ==> row == spec_product_of_request(*payload, row.id, now)
            && row.id@.len() == 36,
{
    let issues = validate_create_product(payload);
    if issues.len() > 0 {
        return Err(ApiError::Validation);
    }
    Ok(
        Product {
            id: fresh_id(),
            name: payload.name.clone(),
            description: crate::product::clone_opt_string(&payload.description),
            price: payload.price,
            cost: payload.cost,
            sku: payload.sku.clone(),
            barcode: crate::product::clone_opt_string(&payload.barcode),
            category: payload.category.clone(),
            stock: payload.stock,
            min_stock: payload.min_stock,
            image_url: crate::product::clone_opt_string(&payload.image_url),
            is_active: true,
            created_at: now,
            updated_at: now,
        },
    )
}

/// Maps the affected-row count a storage update reports to the outcome the
/// handlers return: at least one affected row is success, none is a
/// not-found.
pub fn rows_affected_outcome(affected: u64) -> (r: Result<(), ApiError>)
    ensures
        r is Ok <==> affected > 0,
        r matches Err(e) ==> e == ApiError::NotFound,
{
    if affected > 0 {
        Ok(())
    } else {
        Err(ApiError::NotFound)
    }
}

/// The listing pipeline: every active product, ordered by creation time
/// newest first, with the count the response carries. A soft-deleted row
/// never appears.
pub fn list_products(store: &ProductStore) -> (r: ProductListing)
    ensures
        r.products@.to_multiset() == active_products(store@).to_multiset(),
        sorted_desc(r.products@),
        r.count == r.products@.len(),
        r.products@.len() == active_products(store@).len(),
{
    broadcast use vstd::seq_lib::group_to_multiset_ensures;

    let products = store.list_active();
    proof {
        assert(products@.len() == products@.to_multiset().len());
        assert(active_products(store@).len() == active_products(store@).to_multiset().len());
    }
    let count = products.len();
    ProductListing { products, count }
}

/// The read pipeline: the active product with this id, or a not-found for
/// an absent or soft-deleted row.
pub fn get_product_by_id(store: &ProductStore, id: &String) -> (r: Result<Product, ApiError>)
    ensures
        match spec_find_active(store@, id@) {
            Some(p) => r == Ok::<Product, ApiError>(p),
            None => r == Err::<Product, ApiError>(ApiError::NotFound),
        },
{
    match store.get_active_by_id(id) {
        Some(p) => Ok(p),
        None => Err(ApiError::NotFound),
    }
}

/// The partial-update pipeline: refuse a patch that provides nothing, apply
/// the provided fields to the active row with this id and refresh its
/// update time, and report a not-found when no active row was affected. An
/// empty patch and a miss both leave every row unmodified.
pub fn update_product(store: &mut ProductStore, id: &String, patch: &UpdateProductRequest, now: i64) -> (r: Result<(), ApiError>)
    requires
        old(store).wf(),
    ensures
        final(store).wf(),
        r == Err::<(), ApiError>(ApiError::EmptyPatch) <==> spec_patch_is_empty(*patch),
        spec_patch_is_empty(*patch) ==> final(store)@ == old(store)@,
        !spec_patch_is_empty(*patch) ==> match active_index_by_id(old(store)@, id@, 0) {
            Some(k) => r == Ok::<(), ApiError>(()) && final(store)@ == old(store)@.update(
                k,
                spec_apply_patch(old(store)@[k], *patch, now),
            ),
            None => r == Err::<(), ApiError>(ApiError::NotFound) && final(store)@ == old(store)@,
        },
{
    let provides_nothing = match (&patch.name, &patch.description, &patch.price) {
        (None, None, None) => true,
        _ => false,
    };
    if provides_nothing {
        return Err(ApiError::EmptyPatch);
    }
    if store.update_partial(id, patch, now) {
        Ok(())
    } else {
        Err(ApiError::NotFound)
    }
}

/// The soft-delete pipeline: deactivate the active row with this id and
/// refresh its update time; the row persists. A second delete of the same
/// id, or a miss, is a not-found and changes nothing.
pub fn delete_product(store: &mut ProductStore, id: &String, now: i64) -> (r: Result<(), ApiError>)
    requires
        old(store).wf(),
    ensures
        final(store).wf(),
        match active_index_by_id(old(store)@, id@, 0) {
            Some(k) => r == Ok::<(), ApiError>(()) && final(store)@ == old(store)@.update(
                k,
                spec_deactivated(old(store)@[k], now),
            ),
            None => r == Err::<(), ApiError>(ApiError::NotFound) && final(store)@ == old(store)@,
        },
{
    if store.soft_delete(id, now) {
        Ok(())
    } else {
        Err(ApiError::NotFound)
    }
}

/// An element of the active listing comes from some table row, which is
/// active.
pub proof fn lemma_active_origin(rows: Seq<Product>, p: Product)
    requires
        active_products(rows).contains(p),
    ensures
        exists|j: int| 0 <= j < rows.len() && rows[j] == p && p.is_active,
    decreases rows.len(),
{
    broadcast use vstd::seq_lib::group_filter_ensures;

    reveal(Seq::filter);
    let f = active_products(rows);
    let i = choose|i: int| 0 <= i < f.len() && f[i] == p;
    if rows.len() > 0 {
        let sub = rows.drop_last().filter(is_active_pred());
        if is_active_pred()(rows.last()) && i == f.len() - 1 {
            assert(rows[rows.len() - 1] == p);
        } else {
            assert(sub[i] == f[i]);
            assert(active_products(rows.drop_last()).contains(p));
            lemma_active_origin(rows.drop_last(), p);
            let j = choose|j: int|
                0 <= j < rows.drop_last().len() && rows.drop_last()[j] == p && p.is_active;
            assert(rows[j] == p);
        }
    }
}

/// Law: soft deletion is terminal. Once the active row with an id is
/// deactivated, the row persists but stays inactive: no active row with
/// that id remains, so a repeated delete or an active-only read reports
/// not-found, and the active listing no longer carries the id.
pub proof fn lemma_soft_delete_terminal(rows: Seq<Product>, id: Seq<char>, k: int, now: i64)
    requires
        unique_products(rows),
        active_index_by_id(rows, id, 0) == Some(k),
    ensures
        ({
            let rows1 = rows.update(k, spec_deactivated(rows[k], now));
            &&& active_index_by_id(rows1, id, 0) is None
            &&& spec_find_active(rows1, id) is None
            &&& rows1.len() == rows.len()
            &&& rows1[k].id@ == id && !rows1[k].is_active
            &&& forall|p: Product| active_products(rows1).contains(p) ==> p.id@ != id
        }),
{
    lemma_active_index_props(rows, id, 0);
    let rows1 = rows.update(k, spec_deactivated(rows[k], now));
    assert forall|j: int| 0 <= j < rows1.len() implies !(rows1[j].id@ == id
        && rows1[j].is_active) by {
        if j != k {
            assert(rows1[j] == rows[j]);
            if rows[j].id@ == id {
                assert(rows[k].id@ == id);
                assert(false);
            }
        }
    }
    lemma_active_index_props(rows1, id, 0);
    match active_index_by_id(rows1, id, 0) {
        Some(m) => {
            assert(false);
        },
        None => {},
    }
    assert forall|p: Product| active_products(rows1).contains(p) implies p.id@ != id by {
        lemma_active_origin(rows1, p);
    }
}

/// Law: a created product reads back as it was inserted. Appending a fresh
/// active row makes it exactly what an active-only read of its id returns:
/// the request's fields survive the round trip, modulo the server-assigned
/// id and timestamps.
pub proof fn lemma_create_then_get(rows: Seq<Product>, p: Product)
    requires
        !product_id_taken(rows, p.id@),
        p.is_active,
    ensures
        spec_find_active(rows.push(p), p.id@) == Some(p),
{
    lemma_product_id_index_props(rows, p.id@, 0);
    lemma_active_index_push(rows, p, p.id@, 0);
    assert(rows.push(p)[rows.len() as int] == p);
}

} // verus!
