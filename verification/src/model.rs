use vstd::prelude::*;

verus! {

// Conventions used throughout the crate:
//
// * Monetary amounts are fixed-precision decimals stored as integer
//   cents (`u64`), so `12000` stands for 120.00.
// * Physical measurements (thickness, width, weight, quantity) are
//   stored in thousandths of their unit (`u64`), so a weight of
//   `3000` stands for 3 tons.
// * Timestamps are milliseconds since the Unix epoch (`u64`).
// * Entity keys are strings; uniqueness is the caller's (storage
//   layer's) concern, and every bulk update below touches all rows
//   whose key matches, exactly as a keyed UPDATE would.

/// Which validation rule an input failed.
#[derive(Clone, Copy, Debug, PartialEq, Eq, Structural)]
pub enum ValidationFault {
    DescriptionRequired,
    ProductTypeRequired,
    ThicknessRequired,
    WidthRequired,
    WeightRequired,
    QuantityRequired,
    TotalOverflow,
    NoFieldsToUpdate,
}

/// The error taxonomy of the engine.
///
/// `Validation` rejects malformed input before any write; `Conflict`
/// rejects an operation that would violate a financial-integrity
/// invariant and carries the id of the offending invoice; `NotFound`
/// reports a missing row where a live one was expected; `Storage`
/// reports a fault of the surrounding storage layer (the engine itself
/// raises it only when a freshly drawn key collides with an existing
/// row).
#[derive(Clone, Debug, PartialEq, Eq)]
pub enum Error {
    Validation(ValidationFault),
    Conflict(String),
    NotFound,
    Storage,
}

/// A line item owned by a sale. Items live and die with their sale and
/// are replaced wholesale on update, so they carry no key of their own.
#[derive(Clone, Debug)]
pub struct SaleItem {
    pub description: String,
    pub coil_ref: Option<String>,
    pub coil_thickness: Option<u64>,
    pub coil_width: Option<u64>,
    pub top_coat_ral: Option<String>,
    pub back_coat_ral: Option<String>,
    pub coil_weight: Option<u64>,
    pub quantity: u64,
    pub price_per_ton: u64,
    pub total_amount: u64,
    pub product_type: String,
}

#[derive(Clone, Debug)]
pub struct Sale {
    pub id: String,
    pub client_id: String,
    pub date: u64,
    pub total_amount: u64,
    pub total_amount_ttc: u64,
    pub is_invoiced: bool,
    pub invoice_id: Option<String>,
    pub notes: Option<String>,
    pub payment_method: Option<String>,
    pub transportation_fee: Option<u64>,
    pub tax_rate: u64,
    pub created_at: u64,
    pub updated_at: Option<u64>,
    pub is_paid: bool,
    pub paid_at: Option<u64>,
    pub is_deleted: bool,
    pub deleted_at: Option<u64>,
    pub items: Vec<SaleItem>,
}

#[derive(Clone, Debug)]
pub struct Invoice {
    pub id: String,
    pub invoice_number: String,
    pub client_id: String,
    pub date: u64,
    pub due_date: u64,
    pub total_amount_ht: u64,
    pub total_amount_ttc: u64,
    pub is_paid: bool,
    pub paid_at: Option<u64>,
    pub is_deleted: bool,
    pub deleted_at: Option<u64>,
    pub created_at: u64,
    pub updated_at: Option<u64>,
}

/// A membership row linking one sale into one invoice: the
/// authoritative many-to-many relation.
#[derive(Clone, Debug)]
pub struct InvoiceSale {
    pub invoice_id: String,
    pub sale_id: String,
    pub created_at: u64,
}

#[derive(Clone, Debug)]
pub struct Payment {
    pub id: String,
    pub sale_id: Option<String>,
    pub invoice_id: Option<String>,
    pub client_id: String,
    pub amount: u64,
    pub date: u64,
    pub method: String,
    pub notes: Option<String>,
    pub check_number: Option<String>,
    pub created_at: u64,
    pub updated_at: Option<u64>,
    pub is_deleted: bool,
    pub deleted_at: Option<u64>,
}

#[derive(Clone, Debug)]
pub struct Client {
    pub id: String,
    pub name: String,
    pub company: Option<String>,
    pub email: Option<String>,
    pub phone: Option<String>,
    pub address: Option<String>,
    pub notes: Option<String>,
    pub nif: Option<String>,
    pub nis: Option<String>,
    pub rc: Option<String>,
    pub ai: Option<String>,
    pub rib: Option<String>,
    pub credit_balance: i64,
    pub created_at: u64,
    pub updated_at: Option<u64>,
}

/// One entry of the append-only audit trail.
#[derive(Clone, Debug)]
pub struct AuditLog {
    pub id: u64,
    pub action: String,
    pub entity_type: String,
    pub entity_id: String,
    pub user_id: Option<String>,
    pub timestamp: u64,
    pub details: Option<String>,
}

#[derive(Clone, Debug)]
pub struct CreateSaleItemRequest {
    pub description: String,
    pub coil_ref: Option<String>,
    pub coil_thickness: Option<u64>,
    pub coil_width: Option<u64>,
    pub top_coat_ral: Option<String>,
    pub back_coat_ral: Option<String>,
    pub coil_weight: Option<u64>,
    pub quantity: u64,
    pub price_per_ton: u64,
    pub total_amount: u64,
    pub product_type: String,
}

#[derive(Clone, Debug)]
pub struct CreateSaleRequest {
    pub client_id: String,
    pub date: u64,
    pub total_amount: u64,
    pub total_amount_ttc: u64,
    pub is_invoiced: bool,
    pub invoice_id: Option<String>,
    pub notes: Option<String>,
    pub payment_method: Option<String>,
    pub transportation_fee: Option<u64>,
    pub tax_rate: u64,
    pub is_paid: Option<bool>,
    pub paid_at: Option<u64>,
    pub items: Vec<CreateSaleItemRequest>,
}

#[derive(Clone, Debug)]
pub struct CreateInvoiceRequest {
    pub invoice_number: String,
    pub client_id: String,
    pub date: u64,
    pub due_date: u64,
    pub total_amount_ht: u64,
    pub total_amount_ttc: u64,
    pub is_paid: bool,
    pub paid_at: Option<u64>,
    pub sales_ids: Vec<String>,
}

#[derive(Clone, Debug)]
pub struct CreatePaymentRequest {
    pub sale_id: Option<String>,
    pub invoice_id: Option<String>,
    pub client_id: String,
    pub amount: u64,
    pub date: u64,
    pub method: String,
    pub notes: Option<String>,
    pub check_number: Option<String>,
}

#[derive(Clone, Debug)]
pub struct CreateClientRequest {
    pub name: String,
    pub company: Option<String>,
    pub email: Option<String>,
    pub phone: Option<String>,
    pub address: Option<String>,
    pub notes: Option<String>,
    pub nif: Option<String>,
    pub nis: Option<String>,
    pub rc: Option<String>,
    pub ai: Option<String>,
    pub rib: Option<String>,
}

/// One page of client rows together with the table's full count.
pub struct PaginatedClientsResult {
    pub rows: Vec<Client>,
    pub total: u64,
}

/// One page of live sale rows together with the live count.
pub struct PaginatedSalesResult {
    pub rows: Vec<Sale>,
    pub total: u64,
}

/// One page of live invoice rows together with the live count.
pub struct PaginatedInvoicesResult {
    pub rows: Vec<Invoice>,
    pub total: u64,
}

/// One page of audit entries together with the full count.
pub struct PaginatedAuditLogResult {
    pub rows: Vec<AuditLog>,
    pub total: u64,
}

/// Copies an optional string, preserving its exact value.
pub fn clone_opt_string(o: &Option<String>) -> (r: Option<String>)
    ensures
        r == *o,
{
    match o {
        Some(s) => Some(s.clone()),
        None => None,
    }
}

/// A patch over a client row: every present field replaces the stored
/// one, every absent field leaves it untouched.
#[derive(Clone, Debug)]
pub struct UpdateClientRequest {
    pub name: Option<String>,
    pub company: Option<String>,
    pub email: Option<String>,
    pub phone: Option<String>,
    pub address: Option<String>,
    pub notes: Option<String>,
    pub nif: Option<String>,
    pub nis: Option<String>,
    pub rc: Option<String>,
    pub ai: Option<String>,
    pub rib: Option<String>,
}

} // verus!
