use vstd::prelude::*;

verus! {

/// Which way stock moved. Stored in its lowercase string form; an unknown
/// stored string is a decode error, not a default.
#[derive(Clone, Copy, Debug, PartialEq, Eq, Structural)]
pub enum MovementType {
    In,
    Out,
    Adjustment,
}

impl MovementType {
    /// The storage and serialization form of the movement kind.
    pub open spec fn spec_str(self) -> Seq<char> {
        match self {
            MovementType::In => "in"@,
            MovementType::Out => "out"@,
            MovementType::Adjustment => "adjustment"@,
        }
    }

    pub fn as_str(&self) -> (r: &'static str)
        ensures
            r@ == self.spec_str(),
    {
        match self {
            MovementType::In => "in",
            MovementType::Out => "out",
            MovementType::Adjustment => "adjustment",
        }
    }
}

/// A recorded stock movement.
#[derive(Debug)]
pub struct StockMovement {
    pub id: String,
    pub product_id: String,
    pub movement_type: MovementType,
    pub quantity: i32,
    pub reason: String,
    pub user_id: String,
    pub created_at: i64,
}

/// An inbound stock-movement payload.
#[derive(Debug)]
pub struct CreateStockMovementRequest {
    pub product_id: String,
    pub movement_type: MovementType,
    pub quantity: i32,
    pub reason: String,
}

} // verus!
