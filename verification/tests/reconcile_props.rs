use ledger_engine::ledger::Ledger;
use ledger_engine::model::{
    CreateInvoiceRequest, CreatePaymentRequest, CreateSaleRequest, Invoice,
};

fn sale_req(client: &str) -> CreateSaleRequest {
    CreateSaleRequest {
        client_id: client.to_string(),
        date: 1,
        total_amount: 100,
        total_amount_ttc: 120,
        is_invoiced: false,
        invoice_id: None,
        notes: None,
        payment_method: None,
        transportation_fee: None,
        tax_rate: 19,
        is_paid: None,
        paid_at: None,
        items: vec![],
    }
}

fn invoice_req(number: &str, client: &str, ttc: u64, sales: Vec<&str>) -> CreateInvoiceRequest {
    CreateInvoiceRequest {
        invoice_number: number.to_string(),
        client_id: client.to_string(),
        date: 1,
        due_date: 2,
        total_amount_ht: 100,
        total_amount_ttc: ttc,
        is_paid: false,
        paid_at: None,
        sales_ids: sales.into_iter().map(|s| s.to_string()).collect(),
    }
}

fn payment_req(sale: Option<&str>, client: &str, amount: u64) -> CreatePaymentRequest {
    CreatePaymentRequest {
        sale_id: sale.map(|s| s.to_string()),
        invoice_id: None,
        client_id: client.to_string(),
        amount,
        date: 1,
        method: "cash".to_string(),
        notes: None,
        check_number: None,
    }
}

fn invoice<'a>(lg: &'a Ledger, id: &str) -> &'a Invoice {
    lg.invoices.iter().find(|v| v.id == id).expect("invoice row")
}

fn one_sale_invoice(ttc: u64) -> Ledger {
    let mut lg = Ledger::new();
    lg.create_sale_with(sale_req("cli1"), "sale1".to_string(), 10)
        .unwrap();
    lg.create_invoice_with(
        invoice_req("INV-001", "cli1", ttc, vec!["sale1"]),
        "inv1".to_string(),
        20,
    )
    .unwrap();
    lg
}

#[test]
fn test_invoice_payment_triggers() {
    // One sale on one invoice over 120; a covering payment arrives.
    let mut lg = one_sale_invoice(120);
    lg.create_payment_with(payment_req(Some("sale1"), "cli1", 120), "pay1".to_string(), 30)
        .unwrap();
    assert!(invoice(&lg, "inv1").is_paid, "covering payment should mark the invoice paid");
    assert!(invoice(&lg, "inv1").paid_at.is_some(), "paid timestamp should be set");

    // Reduce the payment to 60: no longer covered.
    lg.set_payment_amount_at(&"pay1".to_string(), 60, 40).unwrap();
    assert!(!invoice(&lg, "inv1").is_paid, "reduced payment should revert the invoice");
    assert!(invoice(&lg, "inv1").paid_at.is_none(), "paid timestamp should be cleared");

    // Raise it back to 120: covered again.
    lg.set_payment_amount_at(&"pay1".to_string(), 120, 50).unwrap();
    assert!(invoice(&lg, "inv1").is_paid, "restored amount should mark the invoice paid");
    assert!(invoice(&lg, "inv1").paid_at.is_some());

    // Soft-delete the payment: not covered.
    lg.delete_payment_at(&"pay1".to_string(), 60).unwrap();
    assert!(!invoice(&lg, "inv1").is_paid, "deleted payment should revert the invoice");
    assert!(invoice(&lg, "inv1").paid_at.is_none());

    // Restore it: covered.
    lg.restore_payment_at(&"pay1".to_string(), 70).unwrap();
    assert!(invoice(&lg, "inv1").is_paid, "restored payment should mark the invoice paid");
    assert!(invoice(&lg, "inv1").paid_at.is_some());

    // Raise the invoice total to 200: the same payment is now short.
    lg.set_invoice_total_ttc_at(&"inv1".to_string(), 200, 80).unwrap();
    assert!(!invoice(&lg, "inv1").is_paid, "raised total should revert the invoice");
    assert!(invoice(&lg, "inv1").paid_at.is_none());

    // Lower the total to 50: the payment now exceeds it.
    lg.set_invoice_total_ttc_at(&"inv1".to_string(), 50, 90).unwrap();
    assert!(invoice(&lg, "inv1").is_paid, "lowered total should mark the invoice paid");
    assert!(invoice(&lg, "inv1").paid_at.is_some());

    // Two payments of 60 against a total of 120.
    let mut lg = one_sale_invoice(120);
    lg.create_payment_with(payment_req(Some("sale1"), "cli1", 60), "pay3".to_string(), 30)
        .unwrap();
    assert!(!invoice(&lg, "inv1").is_paid, "a single 60 should not cover 120");
    lg.create_payment_with(payment_req(Some("sale1"), "cli1", 60), "pay4".to_string(), 31)
        .unwrap();
    assert!(invoice(&lg, "inv1").is_paid, "60 + 60 should cover 120");
    assert!(invoice(&lg, "inv1").paid_at.is_some());

    // Two sales on one invoice over 240, paid 120 each.
    let mut lg = Ledger::new();
    lg.create_sale_with(sale_req("cli1"), "sale2".to_string(), 10).unwrap();
    lg.create_sale_with(sale_req("cli1"), "sale3".to_string(), 11).unwrap();
    lg.create_invoice_with(
        invoice_req("INV-002", "cli1", 240, vec!["sale2", "sale3"]),
        "inv2".to_string(),
        20,
    )
    .unwrap();
    lg.create_payment_with(payment_req(Some("sale2"), "cli1", 120), "pay5".to_string(), 30)
        .unwrap();
    assert!(!invoice(&lg, "inv2").is_paid, "half the total should not cover it");
    lg.create_payment_with(payment_req(Some("sale3"), "cli1", 120), "pay6".to_string(), 31)
        .unwrap();
    assert!(invoice(&lg, "inv2").is_paid, "both sales' payments together cover the total");
    assert!(invoice(&lg, "inv2").paid_at.is_some());
}

#[test]
fn threshold_is_exact() {
    // Totals are cents here: 12000 stands for 120.00.
    let mut lg = one_sale_invoice(12000);
    lg.create_payment_with(payment_req(Some("sale1"), "cli1", 11999), "pay1".to_string(), 30)
        .unwrap();
    assert!(!invoice(&lg, "inv1").is_paid, "119.99 must leave 120.00 unpaid");
    assert!(invoice(&lg, "inv1").paid_at.is_none());

    let mut lg = one_sale_invoice(12000);
    lg.create_payment_with(payment_req(Some("sale1"), "cli1", 12000), "pay1".to_string(), 30)
        .unwrap();
    assert!(invoice(&lg, "inv1").is_paid, "exactly 120.00 must mark 120.00 paid");
    assert!(invoice(&lg, "inv1").paid_at.is_some());
}

#[test]
fn paid_status_is_not_sticky() {
    let mut lg = one_sale_invoice(120);
    lg.create_payment_with(payment_req(Some("sale1"), "cli1", 120), "pay1".to_string(), 30)
        .unwrap();
    assert!(invoice(&lg, "inv1").is_paid);

    lg.delete_payment_at(&"pay1".to_string(), 40).unwrap();
    assert!(!invoice(&lg, "inv1").is_paid, "losing the payment must flip the status back");
    assert!(invoice(&lg, "inv1").paid_at.is_none(), "the timestamp must be cleared too");

    lg.restore_payment_at(&"pay1".to_string(), 50).unwrap();
    assert!(invoice(&lg, "inv1").is_paid, "the restored payment covers the total again");
    assert!(invoice(&lg, "inv1").paid_at.is_some());
}

#[test]
fn recompute_is_idempotent() {
    let mut lg = one_sale_invoice(120);
    lg.create_payment_with(payment_req(Some("sale1"), "cli1", 120), "pay1".to_string(), 30)
        .unwrap();
    // Force a stale status by hand, then recompute twice.
    lg.invoices[0].is_paid = false;
    lg.invoices[0].paid_at = None;
    let first = lg.recompute_invoice_status_at(&"inv1".to_string(), 40).unwrap();
    assert!(first, "the first pass writes the stale row");
    let paid_at_after_first = invoice(&lg, "inv1").paid_at;
    let second = lg.recompute_invoice_status_at(&"inv1".to_string(), 99).unwrap();
    assert!(!second, "the second pass has nothing to write");
    assert_eq!(invoice(&lg, "inv1").paid_at, paid_at_after_first);
    assert!(invoice(&lg, "inv1").is_paid);
}

#[test]
fn recompute_reports_missing_invoice() {
    let mut lg = Ledger::new();
    let r = lg.recompute_invoice_status_at(&"ghost".to_string(), 5);
    assert_eq!(r, Err(ledger_engine::model::Error::NotFound));
}

#[test]
fn direct_invoice_payment_counts() {
    // A payment referencing the invoice directly, with no sale.
    let mut lg = one_sale_invoice(120);
    let mut req = payment_req(None, "cli1", 120);
    req.invoice_id = Some("inv1".to_string());
    lg.create_payment_with(req, "pay1".to_string(), 30).unwrap();
    assert!(invoice(&lg, "inv1").is_paid);
}

#[test]
fn payment_on_invoiced_sale_carries_the_invoice() {
    // The invoice reference is taken from the sale at creation time.
    let mut lg = one_sale_invoice(120);
    let row = lg
        .create_payment_with(payment_req(Some("sale1"), "cli1", 10), "pay1".to_string(), 30)
        .unwrap();
    assert_eq!(row.invoice_id.as_deref(), Some("inv1"));
}

#[test]
fn check_number_is_kept_only_for_checks() {
    let mut lg = Ledger::new();
    let mut req = payment_req(None, "cli1", 10);
    req.check_number = Some("C-77".to_string());
    let row = lg.create_payment_with(req, "pay1".to_string(), 30).unwrap();
    assert_eq!(row.check_number, None, "a cash payment must not keep a check number");

    let mut req = payment_req(None, "cli1", 10);
    req.method = "check".to_string();
    req.check_number = Some("C-77".to_string());
    let row = lg.create_payment_with(req, "pay2".to_string(), 31).unwrap();
    assert_eq!(row.check_number.as_deref(), Some("C-77"));
}

#[test]
fn invoice_creation_always_starts_unpaid() {
    let mut lg = Ledger::new();
    let mut req = invoice_req("INV-009", "cli1", 120, vec![]);
    req.is_paid = true;
    req.paid_at = Some(777);
    let row = lg
        .create_invoice_with(req, "inv9".to_string(), 20)
        .unwrap();
    assert!(!row.is_paid, "caller-supplied paid state is discarded at creation");
    assert_eq!(row.paid_at, None);
}
