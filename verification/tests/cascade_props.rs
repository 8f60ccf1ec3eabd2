use ledger_engine::invoices::DeletionMode;
use ledger_engine::ledger::Ledger;
use ledger_engine::model::{
    CreateInvoiceRequest, CreatePaymentRequest, CreateSaleRequest, Error, Invoice, Sale,
};

fn sale_req(client: &str) -> CreateSaleRequest {
    CreateSaleRequest {
        client_id: client.to_string(),
        date: 1,
        total_amount: 100,
        total_amount_ttc: 120,
        is_invoiced: false,
        invoice_id: None,
        notes: None,
        payment_method: None,
        transportation_fee: None,
        tax_rate: 19,
        is_paid: None,
        paid_at: None,
        items: vec![],
    }
}

fn invoice_req(number: &str, client: &str, ttc: u64, sales: Vec<&str>) -> CreateInvoiceRequest {
    CreateInvoiceRequest {
        invoice_number: number.to_string(),
        client_id: client.to_string(),
        date: 1,
        due_date: 2,
        total_amount_ht: 100,
        total_amount_ttc: ttc,
        is_paid: false,
        paid_at: None,
        sales_ids: sales.into_iter().map(|s| s.to_string()).collect(),
    }
}

fn payment_req(sale: Option<&str>, client: &str, amount: u64) -> CreatePaymentRequest {
    CreatePaymentRequest {
        sale_id: sale.map(|s| s.to_string()),
        invoice_id: None,
        client_id: client.to_string(),
        amount,
        date: 1,
        method: "cash".to_string(),
        notes: None,
        check_number: None,
    }
}

fn invoice<'a>(lg: &'a Ledger, id: &str) -> &'a Invoice {
    lg.invoices.iter().find(|v| v.id == id).expect("invoice row")
}

fn sale<'a>(lg: &'a Ledger, id: &str) -> &'a Sale {
    lg.sales.iter().find(|s| s.id == id).expect("sale row")
}

#[test]
fn sole_member_cascade_deletes_and_restores_invoice() {
    let mut lg = Ledger::new();
    lg.create_sale_with(sale_req("cli1"), "sale1".to_string(), 10).unwrap();
    lg.create_invoice_with(
        invoice_req("INV-001", "cli1", 120, vec!["sale1"]),
        "inv1".to_string(),
        20,
    )
    .unwrap();
    lg.create_payment_with(payment_req(Some("sale1"), "cli1", 50), "pay1".to_string(), 25)
        .unwrap();

    lg.delete_sale_at(&"sale1".to_string(), 30).unwrap();
    assert!(sale(&lg, "sale1").is_deleted);
    assert!(
        invoice(&lg, "inv1").is_deleted,
        "deleting the sole member must soft-delete the invoice"
    );
    assert!(
        lg.payments.iter().all(|p| p.is_deleted),
        "the sale's payments go down with it"
    );
    assert!(
        lg.invoice_sales.iter().all(|l| l.sale_id != "sale1"),
        "membership rows are removed"
    );

    lg.restore_sale_at(&"sale1".to_string(), 40).unwrap();
    assert!(!sale(&lg, "sale1").is_deleted);
    assert!(
        !invoice(&lg, "inv1").is_deleted,
        "restoring the sole member must restore the invoice"
    );
    assert!(
        lg.payments.iter().all(|p| !p.is_deleted),
        "the sale's payments come back with it"
    );
}

#[test]
fn invoice_with_remaining_member_stays_active() {
    let mut lg = Ledger::new();
    lg.create_sale_with(sale_req("cli1"), "sale1".to_string(), 10).unwrap();
    lg.create_sale_with(sale_req("cli1"), "sale2".to_string(), 11).unwrap();
    lg.create_invoice_with(
        invoice_req("INV-001", "cli1", 240, vec!["sale1", "sale2"]),
        "inv1".to_string(),
        20,
    )
    .unwrap();

    lg.delete_sale_at(&"sale1".to_string(), 30).unwrap();
    assert!(sale(&lg, "sale1").is_deleted);
    assert!(
        !invoice(&lg, "inv1").is_deleted,
        "an invoice with another live member stays active"
    );
}

#[test]
fn deleting_sale_under_paid_invoice_is_rejected() {
    let mut lg = Ledger::new();
    lg.create_sale_with(sale_req("cli1"), "sale1".to_string(), 10).unwrap();
    lg.create_invoice_with(
        invoice_req("INV-001", "cli1", 120, vec!["sale1"]),
        "inv1".to_string(),
        20,
    )
    .unwrap();
    lg.create_payment_with(payment_req(Some("sale1"), "cli1", 120), "pay1".to_string(), 30)
        .unwrap();
    assert!(invoice(&lg, "inv1").is_paid);

    let sales_before = lg.sales.len();
    let links_before = lg.invoice_sales.len();
    let payments_before = lg.payments.len();
    let audit_before = lg.audit_log.len();

    let r = lg.delete_sale_at(&"sale1".to_string(), 40);
    assert_eq!(r, Err(Error::Conflict("inv1".to_string())));

    assert_eq!(lg.sales.len(), sales_before);
    assert_eq!(lg.invoice_sales.len(), links_before);
    assert_eq!(lg.payments.len(), payments_before);
    assert_eq!(lg.audit_log.len(), audit_before, "a rejected deletion leaves no trace");
    assert!(!sale(&lg, "sale1").is_deleted, "the sale is untouched");
    assert!(!lg.payments[0].is_deleted, "the payment is untouched");
    assert!(invoice(&lg, "inv1").is_paid, "the invoice is untouched");
    assert!(!invoice(&lg, "inv1").is_deleted);
}

#[test]
fn draft_invoice_is_hard_deleted() {
    let mut lg = Ledger::new();
    lg.create_sale_with(sale_req("cli1"), "sale1".to_string(), 10).unwrap();
    lg.create_invoice_with(
        invoice_req("INV-001", "cli1", 120, vec!["sale1"]),
        "inv1".to_string(),
        20,
    )
    .unwrap();
    assert!(sale(&lg, "sale1").is_invoiced);

    lg.delete_invoice_at(&"inv1".to_string(), 30).unwrap();
    assert!(
        lg.invoices.iter().all(|v| v.id != "inv1"),
        "an unpaid invoice with no payments vanishes physically"
    );
    assert!(
        lg.invoice_sales.iter().all(|l| l.invoice_id != "inv1"),
        "its membership rows vanish with it"
    );
    assert_eq!(sale(&lg, "sale1").invoice_id, None, "the sale is detached");
    assert!(!sale(&lg, "sale1").is_invoiced, "and re-invoiceable");
}

#[test]
fn invoice_with_payment_is_soft_deleted() {
    let mut lg = Ledger::new();
    lg.create_sale_with(sale_req("cli1"), "sale1".to_string(), 10).unwrap();
    lg.create_invoice_with(
        invoice_req("INV-001", "cli1", 120, vec!["sale1"]),
        "inv1".to_string(),
        20,
    )
    .unwrap();
    lg.create_payment_with(payment_req(Some("sale1"), "cli1", 40), "pay1".to_string(), 30)
        .unwrap();

    lg.delete_invoice_at(&"inv1".to_string(), 40).unwrap();
    assert!(
        invoice(&lg, "inv1").is_deleted,
        "an invoice that received money keeps its row under the soft-delete mark"
    );
    assert_eq!(lg.payments.len(), 1);
    assert!(!lg.payments[0].is_deleted, "its payments are untouched");
    assert_eq!(lg.payments[0].amount, 40);
    assert_eq!(sale(&lg, "sale1").invoice_id, None, "the sale is detached");
}

#[test]
fn deletion_mode_follows_the_guard() {
    let mut lg = Ledger::new();
    lg.create_invoice_with(invoice_req("INV-001", "cli1", 120, vec![]), "inv1".to_string(), 20)
        .unwrap();
    assert_eq!(
        lg.choose_deletion_mode(&"inv1".to_string()),
        Ok(DeletionMode::HardDelete),
        "a draft with no payments may be removed physically"
    );

    let mut req = payment_req(None, "cli1", 10);
    req.invoice_id = Some("inv1".to_string());
    lg.create_payment_with(req, "pay1".to_string(), 30).unwrap();
    assert_eq!(
        lg.choose_deletion_mode(&"inv1".to_string()),
        Ok(DeletionMode::SoftDelete),
        "a live payment forces the soft path"
    );

    lg.delete_payment_at(&"pay1".to_string(), 40).unwrap();
    assert_eq!(
        lg.choose_deletion_mode(&"inv1".to_string()),
        Ok(DeletionMode::HardDelete),
        "a soft-deleted payment no longer counts"
    );

    assert_eq!(lg.choose_deletion_mode(&"ghost".to_string()), Err(Error::NotFound));
}

#[test]
fn restore_invoice_clears_the_mark_and_refreshes() {
    let mut lg = Ledger::new();
    lg.create_sale_with(sale_req("cli1"), "sale1".to_string(), 10).unwrap();
    lg.create_invoice_with(
        invoice_req("INV-001", "cli1", 120, vec!["sale1"]),
        "inv1".to_string(),
        20,
    )
    .unwrap();
    lg.create_payment_with(payment_req(Some("sale1"), "cli1", 120), "pay1".to_string(), 25)
        .unwrap();
    lg.delete_invoice_at(&"inv1".to_string(), 30).unwrap();
    assert!(invoice(&lg, "inv1").is_deleted);

    lg.restore_invoice_at(&"inv1".to_string(), 40).unwrap();
    assert!(!invoice(&lg, "inv1").is_deleted);
    assert!(
        invoice(&lg, "inv1").is_paid,
        "the restored row's status is refreshed against its payments"
    );
}

#[test]
fn audit_trail_records_cascade_actions() {
    let mut lg = Ledger::new();
    lg.create_sale_with(sale_req("cli1"), "sale1".to_string(), 10).unwrap();
    lg.delete_sale_at(&"sale1".to_string(), 30).unwrap();
    lg.restore_sale_at(&"sale1".to_string(), 40).unwrap();

    assert_eq!(lg.audit_log.len(), 2);
    assert_eq!(lg.audit_log[0].action, "soft_delete");
    assert_eq!(lg.audit_log[0].entity_type, "sale");
    assert_eq!(lg.audit_log[0].entity_id, "sale1");
    assert_eq!(lg.audit_log[0].id, 0);
    assert_eq!(lg.audit_log[1].action, "restore");
    assert_eq!(lg.audit_log[1].id, 1);
    assert_eq!(lg.audit_log[1].timestamp, 40);
}

#[test]
fn unknown_keys_are_reported_missing() {
    let mut lg = Ledger::new();
    let ghost_key = "ghost".to_string();
    assert_eq!(lg.delete_sale_at(&ghost_key, 1), Err(Error::NotFound));
    assert_eq!(lg.restore_sale_at(&ghost_key, 1), Err(Error::NotFound));
    assert_eq!(lg.delete_invoice_at(&ghost_key, 1), Err(Error::NotFound));
    assert_eq!(lg.restore_invoice_at(&ghost_key, 1), Err(Error::NotFound));
    assert_eq!(lg.delete_payment_at(&ghost_key, 1), Err(Error::NotFound));
    assert_eq!(lg.restore_payment_at(&ghost_key, 1), Err(Error::NotFound));
    assert_eq!(lg.set_payment_amount_at(&ghost_key, 5, 1), Err(Error::NotFound));
    assert_eq!(lg.set_invoice_total_ttc_at(&ghost_key, 5, 1), Err(Error::NotFound));
    assert_eq!(lg.delete_client_at(&ghost_key, 1), Err(Error::NotFound));
}

#[test]
fn duplicate_keys_are_refused_as_storage_faults() {
    let mut lg = Ledger::new();
    lg.create_sale_with(sale_req("cli1"), "sale1".to_string(), 10).unwrap();
    let r = lg.create_sale_with(sale_req("cli1"), "sale1".to_string(), 11);
    assert!(matches!(r, Err(Error::Storage)));
    assert_eq!(lg.sales.len(), 1);

    lg.create_invoice_with(invoice_req("INV-001", "cli1", 120, vec![]), "inv1".to_string(), 20)
        .unwrap();
    let r = lg.create_invoice_with(
        invoice_req("INV-002", "cli1", 120, vec![]),
        "inv1".to_string(),
        21,
    );
    assert!(matches!(r, Err(Error::Storage)));

    lg.create_payment_with(payment_req(None, "cli1", 10), "pay1".to_string(), 30).unwrap();
    let r = lg.create_payment_with(payment_req(None, "cli1", 10), "pay1".to_string(), 31);
    assert!(matches!(r, Err(Error::Storage)));
}
