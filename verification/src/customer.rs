use vstd::prelude::*;

verus! {

/// A customer on record. The purchase total is held in minor currency
/// units.
#[derive(Debug)]
pub struct Customer {
    pub id: String,
    pub name: String,
    pub email: Option<String>,
    pub phone: Option<String>,
    pub address: Option<String>,
    pub total_purchases: i64,
    pub created_at: i64,
    pub updated_at: i64,
}

/// An inbound customer-creation payload.
#[derive(Debug)]
pub struct CreateCustomerRequest {
    pub name: String,
    pub email: Option<String>,
    pub phone: Option<String>,
    pub address: Option<String>,
}

/// An inbound partial customer update.
#[derive(Debug)]
pub struct UpdateCustomerRequest {
    pub name: Option<String>,
    pub email: Option<String>,
    pub phone: Option<String>,
    pub address: Option<String>,
}

} // verus!
