use vstd::prelude::*;

verus! {

/// The error taxonomy shared by every request pipeline, together with the
/// HTTP status code each category maps to at the boundary.
#[derive(Clone, Copy, Debug, PartialEq, Eq, Structural)]
pub enum ApiError {
    /// A payload field broke a declared constraint (400).
    Validation,
    /// Bad credentials; covers both an unknown email and a wrong password,
    /// so that account existence is never leaked (401).
    Authentication,
    /// A unique field (the email) is already taken (409).
    Conflict,
    /// The addressed row does not exist, or is soft-deleted (404).
    NotFound,
    /// A partial update that provides no field at all (400).
    EmptyPatch,
    /// A storage or crypto failure; no internal detail crosses the boundary (500).
    Internal,
}

impl ApiError {
    /// The HTTP status code this error category is reported with.
    pub open spec fn spec_status_code(self) -> u16 {
        match self {
            ApiError::Validation => 400,
            ApiError::Authentication => 401,
            ApiError::Conflict => 409,
            ApiError::NotFound => 404,
            ApiError::EmptyPatch => 400,
            ApiError::Internal => 500,
        }
    }

    pub fn status_code(&self) -> (r: u16)
        ensures
            r == self.spec_status_code(),
    {
        match self {
            ApiError::Validation => 400,
            ApiError::Authentication => 401,
            ApiError::Conflict => 409,
            ApiError::NotFound => 404,
            ApiError::EmptyPatch => 400,
            ApiError::Internal => 500,
        }
    }

    /// The generic message body for this category.
    pub open spec fn spec_message(self) -> Seq<char> {
        match self {
            ApiError::Validation => "Validation failed"@,
            ApiError::Authentication => "Invalid credentials"@,
            ApiError::Conflict => "Email already registered"@,
            ApiError::NotFound => "Not found"@,
            ApiError::EmptyPatch => "No fields provided for update"@,
            ApiError::Internal => "Internal server error"@,
        }
    }

    /// The generic message body for this category; internal failures never
    /// surface their underlying error text.
    pub fn message(&self) -> (r: &'static str)
        ensures
            r@ == self.spec_message(),
    {
        match self {
            ApiError::Validation => "Validation failed",
            ApiError::Authentication => "Invalid credentials",
            ApiError::Conflict => "Email already registered",
            ApiError::NotFound => "Not found",
            ApiError::EmptyPatch => "No fields provided for update",
            ApiError::Internal => "Internal server error",
        }
    }
}

/// One broken field constraint, named after the field and the rule it broke.
#[derive(Clone, Copy, Debug, PartialEq, Eq, Structural)]
pub enum ValidationIssue {
    EmailInvalid,
    PasswordTooShort,
    NameLength,
    ProductNameLength,
    PriceNegative,
    CostNegative,
    SkuLength,
    CategoryLength,
    StockNegative,
    MinStockNegative,
    CustomerNameLength,
    SubtotalNegative,
    TaxNegative,
    DiscountNegative,
    TotalNegative,
    QuantityNotPositive,
    UnitPriceNegative,
    ReasonLength,
}

impl ValidationIssue {
    /// The request field this issue is about.
    pub open spec fn spec_field(self) -> Seq<char> {
        match self {
            ValidationIssue::EmailInvalid => "email"@,
            ValidationIssue::PasswordTooShort => "password"@,
            ValidationIssue::NameLength => "name"@,
            ValidationIssue::ProductNameLength => "name"@,
            ValidationIssue::PriceNegative => "price"@,
            ValidationIssue::CostNegative => "cost"@,
            ValidationIssue::SkuLength => "sku"@,
            ValidationIssue::CategoryLength => "category"@,
            ValidationIssue::StockNegative => "stock"@,
            ValidationIssue::MinStockNegative => "min_stock"@,
            ValidationIssue::CustomerNameLength => "name"@,
            ValidationIssue::SubtotalNegative => "subtotal"@,
            ValidationIssue::TaxNegative => "tax"@,
            ValidationIssue::DiscountNegative => "discount"@,
            ValidationIssue::TotalNegative => "total"@,
            ValidationIssue::QuantityNotPositive => "quantity"@,
            ValidationIssue::UnitPriceNegative => "unit_price"@,
            ValidationIssue::ReasonLength => "reason"@,
        }
    }

    /// The request field this issue is about.
    pub fn field(&self) -> (r: &'static str)
        ensures
            r@ == self.spec_field(),
    {
        match self {
            ValidationIssue::EmailInvalid => "email",
            ValidationIssue::PasswordTooShort => "password",
            ValidationIssue::NameLength => "name",
            ValidationIssue::ProductNameLength => "name",
            ValidationIssue::PriceNegative => "price",
            ValidationIssue::CostNegative => "cost",
            ValidationIssue::SkuLength => "sku",
            ValidationIssue::CategoryLength => "category",
            ValidationIssue::StockNegative => "stock",
            ValidationIssue::MinStockNegative => "min_stock",
            ValidationIssue::CustomerNameLength => "name",
            ValidationIssue::SubtotalNegative => "subtotal",
            ValidationIssue::TaxNegative => "tax",
            ValidationIssue::DiscountNegative => "discount",
            ValidationIssue::TotalNegative => "total",
            ValidationIssue::QuantityNotPositive => "quantity",
            ValidationIssue::UnitPriceNegative => "unit_price",
            ValidationIssue::ReasonLength => "reason",
        }
    }
}

} // verus!
