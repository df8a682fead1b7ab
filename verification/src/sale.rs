use vstd::prelude::*;

verus! {

/// How a sale was paid. Stored in its lowercase string form; an unknown
/// stored string is a decode error, not a default.
#[derive(Clone, Copy, Debug, PartialEq, Eq, Structural)]
pub enum PaymentMethod {
    Cash,
    Card,
    Digital,
}

impl PaymentMethod {
    /// The storage and serialization form of the method.
    pub open spec fn spec_str(self) -> Seq<char> {
        match self {
            PaymentMethod::Cash => "cash"@,
            PaymentMethod::Card => "card"@,
            PaymentMethod::Digital => "digital"@,
        }
    }

    pub fn as_str(&self) -> (r: &'static str)
        ensures
            r@ == self.spec_str(),
    {
        match self {
            PaymentMethod::Cash => "cash",
            PaymentMethod::Card => "card",
            PaymentMethod::Digital => "digital",
        }
    }
}

/// A recorded sale. Amounts are held in minor currency units.
#[derive(Debug)]
pub struct Sale {
    pub id: String,
    pub subtotal: i64,
    pub tax: i64,
    pub discount: i64,
    pub total: i64,
    pub payment_method: PaymentMethod,
    pub cashier_id: String,
    pub customer_id: Option<String>,
    pub created_at: i64,
}

/// One line of a sale.
#[derive(Debug)]
pub struct SaleItem {
    pub id: String,
    pub sale_id: String,
    pub product_id: String,
    pub product_name: String,
    pub quantity: i32,
    pub unit_price: i64,
    pub total: i64,
}

/// An inbound sale payload.
#[derive(Debug)]
pub struct CreateSaleRequest {
    pub items: Vec<CreateSaleItemRequest>,
    pub subtotal: i64,
    pub tax: i64,
    pub discount: i64,
    pub total: i64,
    pub payment_method: PaymentMethod,
    pub customer_id: Option<String>,
}

/// An inbound sale line payload.
#[derive(Debug)]
pub struct CreateSaleItemRequest {
    pub product_id: String,
    pub product_name: String,
    pub quantity: i32,
    pub unit_price: i64,
    pub total: i64,
}

} // verus!
