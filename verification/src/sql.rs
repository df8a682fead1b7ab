use vstd::prelude::*;
use vstd::string::StringExecFns;
use crate::errors::ApiError;
use crate::product::{UpdateProductRequest, spec_patch_is_empty};

verus! {

/// A value bound to one `?` placeholder of a parameterized statement.
#[derive(Debug, PartialEq)]
pub enum SqlValue {
    Text(String),
    Int(i64),
}

/// A parameterized update statement: SQL text whose column names come from
/// a fixed whitelist, and the values bound to its placeholders, in order.
/// A user-supplied value never enters the text itself.
#[derive(Debug)]
pub struct UpdateStatement {
    pub sql: String,
    pub params: Vec<SqlValue>,
}

/// The statement text a patch builds: one whitelisted `column = ?` piece
/// per provided field, always the update time, and the id and active-flag
/// guard in the WHERE clause.
pub open spec fn spec_update_sql(has_name: bool, has_description: bool, has_price: bool) -> Seq<
    char,
> {
    "UPDATE products SET "@ + (if has_name {
        "name = ?, "@
    } else {
        Seq::<char>::empty()
    }) + (if has_description {
        "description = ?, "@
    } else {
        Seq::<char>::empty()
    }) + (if has_price {
        "price = ?, "@
    } else {
        Seq::<char>::empty()
    }) + "updated_at = ? WHERE id = ? AND is_active = true"@
}

/// The bound values a patch builds, in placeholder order: the provided
/// fields, then the update time, then the id.
pub open spec fn spec_update_params(patch: UpdateProductRequest, id: String, now: i64) -> Seq<
    SqlValue,
> {
    (match patch.name {
        Some(n) => seq![SqlValue::Text(n)],
        None => Seq::<SqlValue>::empty(),
    }) + (match patch.description {
        Some(d) => seq![SqlValue::Text(d)],
        None => Seq::<SqlValue>::empty(),
    }) + (match patch.price {
        Some(v) => seq![SqlValue::Int(v)],
        None => Seq::<SqlValue>::empty(),
    }) + seq![SqlValue::Int(now), SqlValue::Text(id)]
}

/// Builds the parameterized partial-update statement for a product: only
/// provided fields are touched, the update time is always refreshed, and a
/// patch that provides nothing is refused instead of built.
pub fn build_product_update(id: &String, patch: &UpdateProductRequest, now: i64) -> (r: Result<
    UpdateStatement,
    ApiError,
>)
    ensures
        r matches Err(e) ==> e == ApiError::EmptyPatch && spec_patch_is_empty(*patch),
        spec_patch_is_empty(*patch) ==> r is Err,
        r matches Ok(stmt) ==> stmt.sql@ == spec_update_sql(
            patch.name is Some,
            patch.description is Some,
            patch.price is Some,
        ) && stmt.params@ == spec_update_params(*patch, *id, now),
{
    let mut sql = String::new();
    sql.append("UPDATE products SET ");
    let mut params: Vec<SqlValue> = Vec::new();
    let mut provided = false;
    match &patch.name {
        Some(n) => {
            sql.append("name = ?, ");
            params.push(SqlValue::Text(n.clone()));
            provided = true;
        },
        None => {},
    }
    match &patch.description {
        Some(d) => {
            sql.append("description = ?, ");
            params.push(SqlValue::Text(d.clone()));
            provided = true;
        },
        None => {},
    }
    match &patch.price {
        Some(v) => {
            sql.append("price = ?, ");
            params.push(SqlValue::Int(*v));
            provided = true;
        },
        None => {},
    }
    if !provided {
        return Err(ApiError::EmptyPatch);
    }
    sql.append("updated_at = ? WHERE id = ? AND is_active = true");
    params.push(SqlValue::Int(now));
    params.push(SqlValue::Text(id.clone()));
    proof {
        assert(sql@ =~= spec_update_sql(
            patch.name is Some,
            patch.description is Some,
            patch.price is Some,
        ));
        assert(params@ =~= spec_update_params(*patch, *id, now));
    }
    Ok(UpdateStatement { sql, params })
}

} // verus!
