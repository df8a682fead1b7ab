use vstd::prelude::*;
use vstd::string::StrSliceExecFns;
use crate::errors::ValidationIssue;
use crate::customer::CreateCustomerRequest;
use crate::product::CreateProductRequest;
use crate::sale::{CreateSaleItemRequest, CreateSaleRequest};
use crate::stock_movement::CreateStockMovementRequest;
use crate::user::{CreateUserRequest, LoginRequest};

verus! {

/// Whether a string is a well-formed email address, as the validator crate
/// judges it. The answer depends on the characters alone.
pub uninterp spec fn email_ok(s: Seq<char>) -> bool;

/// Relies on validator::ValidateEmail::validate_email, the HTML5 well-formed
/// email test: deterministic in the string.
#[verifier::external_body]
fn check_email(s: &String) -> (r: bool)
    ensures
        r == email_ok(s@),
{
    validator::ValidateEmail::validate_email(&s.as_str())
}

/// The declared constraints on a login payload.
pub open spec fn valid_login(email: Seq<char>, password: Seq<char>) -> bool {
    email_ok(email) && password.len() >= 6
}

/// The declared constraints on a registration payload.
pub open spec fn valid_registration(email: Seq<char>, name: Seq<char>, password: Seq<char>) -> bool {
    email_ok(email) && 2 <= name.len() <= 255 && password.len() >= 6
}

/// The declared constraints on a product-creation payload.
pub open spec fn valid_create_product(req: CreateProductRequest) -> bool {
    &&& 1 <= req.name@.len() <= 255
    &&& req.price >= 0
    &&& req.cost >= 0
    &&& 1 <= req.sku@.len() <= 100
    &&& 1 <= req.category@.len() <= 100
    &&& req.stock >= 0
    &&& req.min_stock >= 0
}

/// Every violation in a login payload, in field order.
pub open spec fn spec_login_issues(email: Seq<char>, password: Seq<char>) -> Seq<ValidationIssue> {
    (if !email_ok(email) {
        seq![ValidationIssue::EmailInvalid]
    } else {
        Seq::empty()
    }) + (if password.len() < 6 {
        seq![ValidationIssue::PasswordTooShort]
    } else {
        Seq::empty()
    })
}

/// Checks a login payload against its declared constraints, collecting every
/// violation rather than stopping at the first.
pub fn validate_login(req: &LoginRequest) -> (r: Vec<ValidationIssue>)
    ensures
        r@ == spec_login_issues(req.email@, req.password@),
        r@.len() == 0 <==> valid_login(req.email@, req.password@),
{
    let mut issues: Vec<ValidationIssue> = Vec::new();
    if !check_email(&req.email) {
        issues.push(ValidationIssue::EmailInvalid);
    }
    if req.password.as_str().unicode_len() < 6 {
        issues.push(ValidationIssue::PasswordTooShort);
    }
    assert(issues@ =~= spec_login_issues(req.email@, req.password@));
    issues
}

/// Every violation in a registration payload, in field order.
pub open spec fn spec_registration_issues(email: Seq<char>, name: Seq<char>, password: Seq<char>) -> Seq<ValidationIssue> {
    (if !email_ok(email) {
        seq![ValidationIssue::EmailInvalid]
    } else {
        Seq::empty()
    }) + (if !(2 <= name.len() <= 255) {
        seq![ValidationIssue::NameLength]
    } else {
        Seq::empty()
    }) + (if password.len() < 6 {
        seq![ValidationIssue::PasswordTooShort]
    } else {
        Seq::empty()
    })
}

/// Checks a registration payload against its declared constraints,
/// collecting every violation.
pub fn validate_registration(req: &CreateUserRequest) -> (r: Vec<ValidationIssue>)
    ensures
        r@ == spec_registration_issues(req.email@, req.name@, req.password@),
        r@.len() == 0 <==> valid_registration(req.email@, req.name@, req.password@),
{
    let mut issues: Vec<ValidationIssue> = Vec::new();
    if !check_email(&req.email) {
        issues.push(ValidationIssue::EmailInvalid);
    }
    let name_len = req.name.as_str().unicode_len();
    if name_len < 2 || name_len > 255 {
        issues.push(ValidationIssue::NameLength);
    }
    if req.password.as_str().unicode_len() < 6 {
        issues.push(ValidationIssue::PasswordTooShort);
    }
    assert(issues@ =~= spec_registration_issues(req.email@, req.name@, req.password@));
    issues
}

/// Every violation in a product-creation payload, in field order.
pub open spec fn spec_create_product_issues(req: CreateProductRequest) -> Seq<ValidationIssue> {
    (if !(1 <= req.name@.len() <= 255) {
        seq![ValidationIssue::ProductNameLength]
    } else {
        Seq::empty()
    }) + (if req.price < 0 {
        seq![ValidationIssue::PriceNegative]
    } else {
        Seq::empty()
    }) + (if req.cost < 0 {
        seq![ValidationIssue::CostNegative]
    } else {
        Seq::empty()
    }) + (if !(1 <= req.sku@.len() <= 100) {
        seq![ValidationIssue::SkuLength]
    } else {
        Seq::empty()
    }) + (if !(1 <= req.category@.len() <= 100) {
        seq![ValidationIssue::CategoryLength]
    } else {
        Seq::empty()
    }) + (if req.stock < 0 {
        seq![ValidationIssue::StockNegative]
    } else {
        Seq::empty()
    }) + (if req.min_stock < 0 {
        seq![ValidationIssue::MinStockNegative]
    } else {
        Seq::empty()
    })
}

/// Checks a product-creation payload against its declared constraints,
/// collecting every violation.
pub fn validate_create_product(req: &CreateProductRequest) -> (r: Vec<ValidationIssue>)
    ensures
        r@ == spec_create_product_issues(*req),
        r@.len() == 0 <==> valid_create_product(*req),
{
    let mut issues: Vec<ValidationIssue> = Vec::new();
    let name_len = req.name.as_str().unicode_len();
    if name_len < 1 || name_len > 255 {
        issues.push(ValidationIssue::ProductNameLength);
    }
    if req.price < 0 {
        issues.push(ValidationIssue::PriceNegative);
    }
    if req.cost < 0 {
        issues.push(ValidationIssue::CostNegative);
    }
    let sku_len = req.sku.as_str().unicode_len();
    if sku_len < 1 || sku_len > 100 {
        issues.push(ValidationIssue::SkuLength);
    }
    let category_len = req.category.as_str().unicode_len();
    if category_len < 1 || category_len > 100 {
        issues.push(ValidationIssue::CategoryLength);
    }
    if req.stock < 0 {
        issues.push(ValidationIssue::StockNegative);
    }
    if req.min_stock < 0 {
        issues.push(ValidationIssue::MinStockNegative);
    }
    assert(issues@ =~= spec_create_product_issues(*req));
    issues
}

/// The declared constraints on a customer-creation payload; an absent email
/// is fine, a present one must be well-formed.
pub open spec fn valid_create_customer(req: CreateCustomerRequest) -> bool {
    &&& 1 <= req.name@.len() <= 255
    &&& (match req.email {
        Some(e) => email_ok(e@),
        None => true,
    })
}

/// Every violation in a customer-creation payload, in field order.
pub open spec fn spec_create_customer_issues(req: CreateCustomerRequest) -> Seq<ValidationIssue> {
    (if !(1 <= req.name@.len() <= 255) {
        seq![ValidationIssue::CustomerNameLength]
    } else {
        Seq::empty()
    }) + (match req.email {
        Some(e) => if !email_ok(e@) {
            seq![ValidationIssue::EmailInvalid]
        } else {
            Seq::empty()
        },
        None => Seq::empty(),
    })
}

/// Checks a customer-creation payload, collecting every violation.
pub fn validate_create_customer(req: &CreateCustomerRequest) -> (r: Vec<ValidationIssue>)
    ensures
        r@ == spec_create_customer_issues(*req),
        r@.len() == 0 <==> valid_create_customer(*req),
{
    let mut issues: Vec<ValidationIssue> = Vec::new();
    let name_len = req.name.as_str().unicode_len();
    if name_len < 1 || name_len > 255 {
        issues.push(ValidationIssue::CustomerNameLength);
    }
    match &req.email {
        Some(e) => {
            if !check_email(e) {
                issues.push(ValidationIssue::EmailInvalid);
            }
        },
        None => {},
    }
    assert(issues@ =~= spec_create_customer_issues(*req));
    issues
}

/// The declared constraints on the amounts of a sale payload. The line
/// items carry their own constraints, checked line by line.
pub open spec fn valid_create_sale(req: CreateSaleRequest) -> bool {
    req.subtotal >= 0 && req.tax >= 0 && req.discount >= 0 && req.total >= 0
}

/// Every violation among the amounts of a sale payload, in field order.
pub open spec fn spec_create_sale_issues(req: CreateSaleRequest) -> Seq<ValidationIssue> {
    (if req.subtotal < 0 {
        seq![ValidationIssue::SubtotalNegative]
    } else {
        Seq::empty()
    }) + (if req.tax < 0 {
        seq![ValidationIssue::TaxNegative]
    } else {
        Seq::empty()
    }) + (if req.discount < 0 {
        seq![ValidationIssue::DiscountNegative]
    } else {
        Seq::empty()
    }) + (if req.total < 0 {
        seq![ValidationIssue::TotalNegative]
    } else {
        Seq::empty()
    })
}

/// Checks the amounts of a sale payload, collecting every violation.
pub fn validate_create_sale(req: &CreateSaleRequest) -> (r: Vec<ValidationIssue>)
    ensures
        r@ == spec_create_sale_issues(*req),
        r@.len() == 0 <==> valid_create_sale(*req),
{
    let mut issues: Vec<ValidationIssue> = Vec::new();
    if req.subtotal < 0 {
        issues.push(ValidationIssue::SubtotalNegative);
    }
    if req.tax < 0 {
        issues.push(ValidationIssue::TaxNegative);
    }
    if req.discount < 0 {
        issues.push(ValidationIssue::DiscountNegative);
    }
    if req.total < 0 {
        issues.push(ValidationIssue::TotalNegative);
    }
    assert(issues@ =~= spec_create_sale_issues(*req));
    issues
}

/// The declared constraints on one sale line: at least one unit, and no
/// negative amounts.
pub open spec fn valid_create_sale_item(req: CreateSaleItemRequest) -> bool {
    req.quantity >= 1 && req.unit_price >= 0 && req.total >= 0
}

/// Every violation in one sale line, in field order.
pub open spec fn spec_create_sale_item_issues(req: CreateSaleItemRequest) -> Seq<ValidationIssue> {
    (if req.quantity < 1 {
        seq![ValidationIssue::QuantityNotPositive]
    } else {
        Seq::empty()
    }) + (if req.unit_price < 0 {
        seq![ValidationIssue::UnitPriceNegative]
    } else {
        Seq::empty()
    }) + (if req.total < 0 {
        seq![ValidationIssue::TotalNegative]
    } else {
        Seq::empty()
    })
}

/// Checks one sale line, collecting every violation.
pub fn validate_create_sale_item(req: &CreateSaleItemRequest) -> (r: Vec<ValidationIssue>)
    ensures
        r@ == spec_create_sale_item_issues(*req),
        r@.len() == 0 <==> valid_create_sale_item(*req),
{
    let mut issues: Vec<ValidationIssue> = Vec::new();
    if req.quantity < 1 {
        issues.push(ValidationIssue::QuantityNotPositive);
    }
    if req.unit_price < 0 {
        issues.push(ValidationIssue::UnitPriceNegative);
    }
    if req.total < 0 {
        issues.push(ValidationIssue::TotalNegative);
    }
    assert(issues@ =~= spec_create_sale_item_issues(*req));
    issues
}

/// The declared constraint on a stock-movement payload: a non-empty reason
/// of bounded length.
pub open spec fn valid_create_stock_movement(req: CreateStockMovementRequest) -> bool {
    1 <= req.reason@.len() <= 255
}

/// Every violation in a stock-movement payload.
pub open spec fn spec_create_stock_movement_issues(req: CreateStockMovementRequest) -> Seq<ValidationIssue> {
    if !(1 <= req.reason@.len() <= 255) {
        seq![ValidationIssue::ReasonLength]
    } else {
        Seq::empty()
    }
}

/// Checks a stock-movement payload.
pub fn validate_create_stock_movement(req: &CreateStockMovementRequest) -> (r: Vec<ValidationIssue>)
    ensures
        r@ == spec_create_stock_movement_issues(*req),
        r@.len() == 0 <==> valid_create_stock_movement(*req),
{
    let mut issues: Vec<ValidationIssue> = Vec::new();
    let reason_len = req.reason.as_str().unicode_len();
    if reason_len < 1 || reason_len > 255 {
        issues.push(ValidationIssue::ReasonLength);
    }
    assert(issues@ =~= spec_create_stock_movement_issues(*req));
    issues
}

} // verus!
