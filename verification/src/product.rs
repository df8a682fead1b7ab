use vstd::prelude::*;

verus! {

/// A catalog product. Prices are held in minor currency units. Deletion is
/// soft only: it clears `is_active` and the row persists.
#[derive(Debug)]
pub struct Product {
    pub id: String,
    pub name: String,
    pub description: Option<String>,
    pub price: i64,
    pub cost: i64,
    pub sku: String,
    pub barcode: Option<String>,
    pub category: String,
    pub stock: i32,
    pub min_stock: i32,
    pub image_url: Option<String>,
    pub is_active: bool,
    pub created_at: i64,
    pub updated_at: i64,
}

/// An inbound product-creation payload.
#[derive(Debug)]
pub struct CreateProductRequest {
    pub name: String,
    pub description: Option<String>,
    pub price: i64,
    pub cost: i64,
    pub sku: String,
    pub barcode: Option<String>,
    pub category: String,
    pub stock: i32,
    pub min_stock: i32,
    pub image_url: Option<String>,
}

/// An inbound partial-update payload. The accepted shape is broader than
/// what the update applies: only `name`, `description` and `price` are wired
/// through, the remaining fields are accepted and ignored.
#[derive(Debug)]
pub struct UpdateProductRequest {
    pub name: Option<String>,
    pub description: Option<String>,
    pub price: Option<i64>,
    pub cost: Option<i64>,
    pub sku: Option<String>,
    pub barcode: Option<String>,
    pub category: Option<String>,
    pub stock: Option<i32>,
    pub min_stock: Option<i32>,
    pub image_url: Option<String>,
    pub is_active: Option<bool>,
}

/// The row a creation payload persists as: a caller-generated id, the active
/// flag forced true, and both timestamps set to the same creation instant.
pub open spec fn spec_product_of_request(req: CreateProductRequest, id: String, now: i64) -> Product {
    Product {
        id: id,
        name: req.name,
        description: req.description,
        price: req.price,
        cost: req.cost,
        sku: req.sku,
        barcode: req.barcode,
        category: req.category,
        stock: req.stock,
        min_stock: req.min_stock,
        image_url: req.image_url,
        is_active: true,
        created_at: now,
        updated_at: now,
    }
}

/// A patch provides nothing when none of the three wired fields is present;
/// the ignored fields do not count.
pub open spec fn spec_patch_is_empty(patch: UpdateProductRequest) -> bool {
    patch.name is None && patch.description is None && patch.price is None
}

/// What a partial update leaves of a row: the provided fields replaced, the
/// update time refreshed, everything else kept.
pub open spec fn spec_apply_patch(p: Product, patch: UpdateProductRequest, now: i64) -> Product {
    Product {
        name: match patch.name {
            Some(n) => n,
            None => p.name,
        },
        description: match patch.description {
            Some(d) => Some(d),
            None => p.description,
        },
        price: match patch.price {
            Some(v) => v,
            None => p.price,
        },
        updated_at: now,
        ..p
    }
}

/// What a soft delete leaves of a row: inactive, the update time refreshed,
/// everything else kept.
pub open spec fn spec_deactivated(p: Product, now: i64) -> Product {
    Product { is_active: false, updated_at: now, ..p }
}

/// Clones an optional string, keeping its value.
pub fn clone_opt_string(s: &Option<String>) -> (r: Option<String>)
    ensures
        r == *s,
{
    match s {
        Some(x) => Some(x.clone()),
        None => None,
    }
}

impl Clone for Product {
    fn clone(&self) -> (r: Product)
        ensures
            r == *self,
    {
        Product {
            id: self.id.clone(),
            name: self.name.clone(),
            description: clone_opt_string(&self.description),
            price: self.price,
            cost: self.cost,
            sku: self.sku.clone(),
            barcode: clone_opt_string(&self.barcode),
            category: self.category.clone(),
            stock: self.stock,
            min_stock: self.min_stock,
            image_url: clone_opt_string(&self.image_url),
            is_active: self.is_active,
            created_at: self.created_at,
            updated_at: self.updated_at,
        }
    }
}

} // verus!
