use pos_backend::errors::{ApiError, ValidationIssue};
use pos_backend::product::{CreateProductRequest, UpdateProductRequest};
use pos_backend::product_store::ProductStore;
use pos_backend::products::{
    build_product_row, create_product, delete_product, get_product_by_id, list_products,
    rows_affected_outcome, update_product,
};
use pos_backend::sql::{SqlValue, build_product_update};
use pos_backend::validation::validate_create_product;

fn coffee_request(name: &str, sku: &str) -> CreateProductRequest {
    CreateProductRequest {
        name: name.to_string(),
        description: Some("whole beans".to_string()),
        price: 1250,
        cost: 700,
        sku: sku.to_string(),
        barcode: Some("0012345".to_string()),
        category: "beverages".to_string(),
        stock: 40,
        min_stock: 5,
        image_url: None,
    }
}

fn empty_patch() -> UpdateProductRequest {
    UpdateProductRequest {
        name: None,
        description: None,
        price: None,
        cost: None,
        sku: None,
        barcode: None,
        category: None,
        stock: None,
        min_stock: None,
        image_url: None,
        is_active: None,
    }
}

#[test]
fn creation_forces_active_and_equal_timestamps() {
    let mut store = ProductStore::new();
    let created = create_product(&mut store, &coffee_request("Coffee", "SKU-1"), 500)
        .expect("creation should succeed");
    assert_eq!(created.id.len(), 36);
    let p = get_product_by_id(&store, &created.id).expect("the created product must read back");
    assert!(p.is_active);
    assert_eq!(p.created_at, 500);
    assert_eq!(p.updated_at, 500);
}

#[test]
fn creation_round_trip_keeps_the_fields() {
    let mut store = ProductStore::new();
    let request = coffee_request("Coffee", "SKU-1");
    let created = create_product(&mut store, &request, 500).expect("creation should succeed");
    let p = get_product_by_id(&store, &created.id).expect("the created product must read back");
    assert_eq!(p.id, created.id);
    assert_eq!(p.name, "Coffee");
    assert_eq!(p.description, Some("whole beans".to_string()));
    assert_eq!(p.price, 1250);
    assert_eq!(p.cost, 700);
    assert_eq!(p.sku, "SKU-1");
    assert_eq!(p.barcode, Some("0012345".to_string()));
    assert_eq!(p.category, "beverages");
    assert_eq!(p.stock, 40);
    assert_eq!(p.min_stock, 5);
    assert_eq!(p.image_url, None);
}

#[test]
fn invalid_product_payload_is_rejected() {
    let mut store = ProductStore::new();
    let mut bad = coffee_request("", "SKU-1");
    bad.price = -1;
    let err = create_product(&mut store, &bad, 500).expect_err("the payload breaks two rules");
    assert_eq!(err, ApiError::Validation);
    assert_eq!(err.status_code(), 400);
    let issues = validate_create_product(&bad);
    assert_eq!(
        issues,
        vec![ValidationIssue::ProductNameLength, ValidationIssue::PriceNegative]
    );
    assert_eq!(store.len(), 0);
}

#[test]
fn duplicate_sku_fails_as_internal() {
    let mut store = ProductStore::new();
    create_product(&mut store, &coffee_request("Coffee", "SKU-1"), 500)
        .expect("first creation should succeed");
    let err = create_product(&mut store, &coffee_request("Other coffee", "SKU-1"), 600)
        .expect_err("the sku column is unique");
    assert_eq!(err, ApiError::Internal);
    assert_eq!(err.status_code(), 500);
    assert_eq!(store.len(), 1);
}

#[test]
fn empty_patch_is_rejected_and_modifies_nothing() {
    let mut store = ProductStore::new();
    let created = create_product(&mut store, &coffee_request("Coffee", "SKU-1"), 500)
        .expect("creation should succeed");
    let err = update_product(&mut store, &created.id, &empty_patch(), 900)
        .expect_err("a patch that provides nothing must be refused");
    assert_eq!(err, ApiError::EmptyPatch);
    assert_eq!(err.status_code(), 400);
    let p = get_product_by_id(&store, &created.id).expect("the product is still there");
    assert_eq!(p.name, "Coffee");
    assert_eq!(p.updated_at, 500);

    // Fields outside the wired-through set do not make a patch non-empty.
    let mut ignored_only = empty_patch();
    ignored_only.sku = Some("SKU-2".to_string());
    ignored_only.stock = Some(99);
    let err = update_product(&mut store, &created.id, &ignored_only, 900)
        .expect_err("only name, description and price count as provided");
    assert_eq!(err, ApiError::EmptyPatch);
    let p = get_product_by_id(&store, &created.id).expect("the product is still there");
    assert_eq!(p.sku, "SKU-1");
    assert_eq!(p.stock, 40);
}

#[test]
fn partial_update_touches_only_provided_fields() {
    let mut store = ProductStore::new();
    let created = create_product(&mut store, &coffee_request("Coffee", "SKU-1"), 500)
        .expect("creation should succeed");
    let mut patch = empty_patch();
    patch.name = Some("Dark roast".to_string());
    patch.price = Some(1500);
    update_product(&mut store, &created.id, &patch, 900).expect("the update should succeed");
    let p = get_product_by_id(&store, &created.id).expect("the product is still there");
    assert_eq!(p.name, "Dark roast");
    assert_eq!(p.price, 1500);
    assert_eq!(p.description, Some("whole beans".to_string()));
    assert_eq!(p.cost, 700);
    assert_eq!(p.created_at, 500);
    assert_eq!(p.updated_at, 900);
}

#[test]
fn update_of_missing_product_is_not_found() {
    let mut store = ProductStore::new();
    let mut patch = empty_patch();
    patch.name = Some("Anything".to_string());
    let err = update_product(&mut store, &"no-such-id".to_string(), &patch, 900)
        .expect_err("there is no row to update");
    assert_eq!(err, ApiError::NotFound);
    assert_eq!(err.status_code(), 404);
}

#[test]
fn soft_delete_twice_reports_not_found_and_keeps_the_row() {
    let mut store = ProductStore::new();
    let created = create_product(&mut store, &coffee_request("Coffee", "SKU-1"), 500)
        .expect("creation should succeed");
    delete_product(&mut store, &created.id, 600).expect("the first delete succeeds");
    let err = delete_product(&mut store, &created.id, 700)
        .expect_err("the second delete finds no active row");
    assert_eq!(err, ApiError::NotFound);
    // The row persists, inactive: reads and listings no longer see it.
    assert_eq!(store.len(), 1);
    let err = get_product_by_id(&store, &created.id)
        .expect_err("a soft-deleted product reads as absent");
    assert_eq!(err, ApiError::NotFound);
    let listing = list_products(&store);
    assert_eq!(listing.count, 0);
    assert!(listing.products.iter().all(|p| p.id != created.id));
}

#[test]
fn listing_excludes_deleted_and_orders_newest_first() {
    let mut store = ProductStore::new();
    let first = create_product(&mut store, &coffee_request("First", "SKU-1"), 100)
        .expect("creation should succeed");
    let second = create_product(&mut store, &coffee_request("Second", "SKU-2"), 300)
        .expect("creation should succeed");
    let third = create_product(&mut store, &coffee_request("Third", "SKU-3"), 200)
        .expect("creation should succeed");
    delete_product(&mut store, &second.id, 400).expect("the delete succeeds");
    let listing = list_products(&store);
    assert_eq!(listing.count, 2);
    assert_eq!(listing.products.len(), 2);
    assert_eq!(listing.products[0].id, third.id);
    assert_eq!(listing.products[0].created_at, 200);
    assert_eq!(listing.products[1].id, first.id);
    assert_eq!(listing.products[1].created_at, 100);
    assert!(listing.products.iter().all(|p| p.id != second.id));
    assert!(listing.products.iter().all(|p| p.is_active));
}

#[test]
fn update_statement_is_parameterized_from_the_whitelist() {
    let id = "prod-1".to_string();
    let mut patch = empty_patch();
    patch.name = Some("New name".to_string());
    patch.price = Some(42);
    let stmt = build_product_update(&id, &patch, 777).expect("two fields are provided");
    assert_eq!(
        stmt.sql,
        "UPDATE products SET name = ?, price = ?, updated_at = ? WHERE id = ? AND is_active = true"
    );
    assert_eq!(
        stmt.params,
        vec![
            SqlValue::Text("New name".to_string()),
            SqlValue::Int(42),
            SqlValue::Int(777),
            SqlValue::Text("prod-1".to_string())
        ]
    );

    let mut full = empty_patch();
    full.name = Some("N".to_string());
    full.description = Some("D".to_string());
    full.price = Some(1);
    let stmt = build_product_update(&id, &full, 5).expect("three fields are provided");
    assert_eq!(
        stmt.sql,
        "UPDATE products SET name = ?, description = ?, price = ?, updated_at = ? WHERE id = ? AND is_active = true"
    );

    let err = build_product_update(&id, &empty_patch(), 5)
        .expect_err("a patch that provides nothing builds no statement");
    assert_eq!(err, ApiError::EmptyPatch);
}

#[test]
fn error_categories_map_to_their_status_codes() {
    assert_eq!(ApiError::Validation.status_code(), 400);
    assert_eq!(ApiError::Authentication.status_code(), 401);
    assert_eq!(ApiError::Conflict.status_code(), 409);
    assert_eq!(ApiError::NotFound.status_code(), 404);
    assert_eq!(ApiError::EmptyPatch.status_code(), 400);
    assert_eq!(ApiError::Internal.status_code(), 500);
}

#[test]
fn creation_step_builds_the_row_to_persist() {
    let row = build_product_row(&coffee_request("Coffee", "SKU-1"), 500)
        .expect("the payload is valid");
    assert_eq!(row.id.len(), 36);
    assert_eq!(row.name, "Coffee");
    assert!(row.is_active);
    assert_eq!(row.created_at, 500);
    assert_eq!(row.updated_at, 500);

    let err = build_product_row(&coffee_request("", "SKU-1"), 500)
        .expect_err("an empty name must be refused");
    assert_eq!(err, ApiError::Validation);
}

#[test]
fn affected_row_counts_map_to_outcomes() {
    assert!(rows_affected_outcome(1).is_ok());
    assert!(rows_affected_outcome(7).is_ok());
    assert_eq!(rows_affected_outcome(0), Err(ApiError::NotFound));
}
