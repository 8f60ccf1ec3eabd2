use ledger_engine::ledger::Ledger;
use ledger_engine::model::{
    CreateClientRequest, CreateSaleItemRequest, CreateSaleRequest, Error, UpdateClientRequest,
    ValidationFault,
};

fn client_req(name: &str) -> CreateClientRequest {
    CreateClientRequest {
        name: name.to_string(),
        company: None,
        email: None,
        phone: None,
        address: None,
        notes: None,
        nif: None,
        nis: None,
        rc: None,
        ai: None,
        rib: None,
    }
}

fn empty_patch() -> UpdateClientRequest {
    UpdateClientRequest {
        name: None,
        company: None,
        email: None,
        phone: None,
        address: None,
        notes: None,
        nif: None,
        nis: None,
        rc: None,
        ai: None,
        rib: None,
    }
}

fn sale_req(client: &str) -> CreateSaleRequest {
    CreateSaleRequest {
        client_id: client.to_string(),
        date: 1,
        total_amount: 100,
        total_amount_ttc: 120,
        is_invoiced: false,
        invoice_id: None,
        notes: None,
        payment_method: None,
        transportation_fee: None,
        tax_rate: 19,
        is_paid: None,
        paid_at: None,
        items: vec![],
    }
}

fn coil_item(weight: u64, price: u64) -> CreateSaleItemRequest {
    CreateSaleItemRequest {
        description: "coil".to_string(),
        coil_ref: None,
        coil_thickness: Some(500),
        coil_width: Some(1000),
        top_coat_ral: None,
        back_coat_ral: None,
        coil_weight: Some(weight),
        quantity: 1000,
        price_per_ton: price,
        total_amount: 0,
        product_type: "coil".to_string(),
    }
}

#[test]
fn client_create_and_read_back() {
    let mut lg = Ledger::new();
    let row = lg
        .create_client_with(client_req("Acme"), "cli1".to_string(), 10)
        .unwrap();
    assert_eq!(row.name, "Acme");
    assert_eq!(row.credit_balance, 0);
    let read = lg.get_client_by_id(&"cli1".to_string()).unwrap();
    assert_eq!(read.name, "Acme");
    assert_eq!(read.created_at, 10);
}

#[test]
fn client_patch_replaces_only_present_fields() {
    let mut lg = Ledger::new();
    let mut req = client_req("Acme");
    req.email = Some("old@acme.example".to_string());
    req.phone = Some("111".to_string());
    lg.create_client_with(req, "cli1".to_string(), 10).unwrap();

    let mut patch = empty_patch();
    patch.email = Some("new@acme.example".to_string());
    let row = lg
        .update_client_with(&"cli1".to_string(), patch, 20)
        .unwrap();
    assert_eq!(row.email.as_deref(), Some("new@acme.example"));
    assert_eq!(row.phone.as_deref(), Some("111"), "an absent field survives the patch");
    assert_eq!(row.name, "Acme");
    assert_eq!(row.updated_at, Some(20));
}

#[test]
fn empty_client_patch_is_rejected() {
    let mut lg = Ledger::new();
    lg.create_client_with(client_req("Acme"), "cli1".to_string(), 10).unwrap();
    let r = lg.update_client_with(&"cli1".to_string(), empty_patch(), 20);
    assert!(matches!(
        r,
        Err(Error::Validation(ValidationFault::NoFieldsToUpdate))
    ));
}

#[test]
fn client_delete_removes_the_row_and_audits() {
    let mut lg = Ledger::new();
    lg.create_client_with(client_req("Acme"), "cli1".to_string(), 10).unwrap();
    lg.delete_client_at(&"cli1".to_string(), 20).unwrap();
    assert!(lg.clients.is_empty());
    assert_eq!(lg.audit_log.len(), 1);
    assert_eq!(lg.audit_log[0].action, "delete");
    assert_eq!(lg.audit_log[0].entity_type, "client");
}

#[test]
fn client_pages_are_clipped_windows() {
    let mut lg = Ledger::new();
    for i in 0..7u32 {
        let id = format!("cli{}", i);
        lg.create_client_with(client_req(&format!("Client {}", i)), id, i as u64).unwrap();
    }
    let page = lg.get_clients(Some(1), Some(3));
    assert_eq!(page.total, 7);
    assert_eq!(page.rows.len(), 3);
    assert_eq!(page.rows[0].id, "cli0");

    let page = lg.get_clients(Some(3), Some(3));
    assert_eq!(page.rows.len(), 1, "the last page is clipped");
    assert_eq!(page.rows[0].id, "cli6");

    let page = lg.get_clients(Some(9), Some(3));
    assert_eq!(page.rows.len(), 0, "a page past the end is empty");

    let page = lg.get_clients(None, None);
    assert_eq!(page.rows.len(), 5, "the default window is the first five rows");
}

#[test]
fn sale_create_derives_item_totals() {
    let mut lg = Ledger::new();
    let mut req = sale_req("cli1");
    req.items = vec![coil_item(3000, 10000)];
    let row = lg.create_sale_with(req, "sale1".to_string(), 10).unwrap();
    assert_eq!(row.items.len(), 1);
    assert_eq!(row.items[0].total_amount, 30000);
    assert_eq!(lg.sales[0].items[0].total_amount, 30000);
}

#[test]
fn sale_create_rejects_invalid_items_without_writing() {
    let mut lg = Ledger::new();
    let mut req = sale_req("cli1");
    let mut bad = coil_item(3000, 10000);
    bad.coil_weight = None;
    req.items = vec![coil_item(1000, 100), bad];
    let r = lg.create_sale_with(req, "sale1".to_string(), 10);
    assert!(matches!(
        r,
        Err(Error::Validation(ValidationFault::WeightRequired))
    ));
    assert!(lg.sales.is_empty(), "a failed creation writes nothing");
}

#[test]
fn sale_update_replaces_items_wholesale() {
    let mut lg = Ledger::new();
    let mut req = sale_req("cli1");
    req.items = vec![coil_item(1000, 100), coil_item(2000, 100)];
    lg.create_sale_with(req, "sale1".to_string(), 10).unwrap();
    assert_eq!(lg.sales[0].items.len(), 2);

    let mut req = sale_req("cli1");
    req.total_amount_ttc = 500;
    req.items = vec![coil_item(5000, 2000)];
    let row = lg.update_sale_with(&"sale1".to_string(), req, 20).unwrap();
    assert_eq!(row.items.len(), 1, "the old item set is gone");
    assert_eq!(row.items[0].total_amount, 10000);
    assert_eq!(row.total_amount_ttc, 500);
    assert_eq!(row.created_at, 10, "the creation stamp survives the update");
    assert_eq!(row.updated_at, Some(20));

    let r = lg.update_sale_with(&"ghost".to_string(), sale_req("cli1"), 30);
    assert!(matches!(r, Err(Error::NotFound)));
}

#[test]
fn sale_reads_skip_deleted_rows() {
    let mut lg = Ledger::new();
    lg.create_sale_with(sale_req("cli1"), "sale1".to_string(), 10).unwrap();
    lg.create_sale_with(sale_req("cli1"), "sale2".to_string(), 11).unwrap();
    lg.delete_sale_at(&"sale1".to_string(), 20).unwrap();

    assert!(lg.get_sale_by_id(&"sale1".to_string()).is_none(), "a deleted sale reads as absent");
    assert!(lg.get_sale_by_id(&"sale2".to_string()).is_some());

    let page = lg.get_sales(None, None);
    assert_eq!(page.total, 1);
    assert_eq!(page.rows[0].id, "sale2");

    let deleted = lg.get_deleted_sales();
    assert_eq!(deleted.len(), 1);
    assert_eq!(deleted[0].id, "sale1");
}

#[test]
fn payment_listings_split_on_the_mark() {
    let mut lg = Ledger::new();
    let mk = |amount: u64| ledger_engine::model::CreatePaymentRequest {
        sale_id: None,
        invoice_id: None,
        client_id: "cli1".to_string(),
        amount,
        date: 1,
        method: "cash".to_string(),
        notes: None,
        check_number: None,
    };
    lg.create_payment_with(mk(10), "pay1".to_string(), 10).unwrap();
    lg.create_payment_with(mk(20), "pay2".to_string(), 11).unwrap();
    lg.delete_payment_at(&"pay1".to_string(), 20).unwrap();

    let live = lg.get_payments();
    assert_eq!(live.len(), 1);
    assert_eq!(live[0].id, "pay2");
    let gone = lg.get_deleted_payments();
    assert_eq!(gone.len(), 1);
    assert_eq!(gone[0].id, "pay1");
}

#[test]
fn invoice_listings_split_on_the_mark() {
    let mut lg = Ledger::new();
    let req = |n: &str| ledger_engine::model::CreateInvoiceRequest {
        invoice_number: n.to_string(),
        client_id: "cli1".to_string(),
        date: 1,
        due_date: 2,
        total_amount_ht: 100,
        total_amount_ttc: 120,
        is_paid: false,
        paid_at: None,
        sales_ids: vec![],
    };
    lg.create_invoice_with(req("INV-001"), "inv1".to_string(), 10).unwrap();
    lg.create_invoice_with(req("INV-002"), "inv2".to_string(), 11).unwrap();
    // A direct payment keeps the first invoice on the soft path.
    let pay = ledger_engine::model::CreatePaymentRequest {
        sale_id: None,
        invoice_id: Some("inv1".to_string()),
        client_id: "cli1".to_string(),
        amount: 10,
        date: 1,
        method: "cash".to_string(),
        notes: None,
        check_number: None,
    };
    lg.create_payment_with(pay, "pay1".to_string(), 12).unwrap();
    lg.delete_invoice_at(&"inv1".to_string(), 20).unwrap();

    let page = lg.get_invoices(None, None);
    assert_eq!(page.total, 1);
    assert_eq!(page.rows[0].id, "inv2");
    let gone = lg.get_deleted_invoices();
    assert_eq!(gone.len(), 1);
    assert_eq!(gone[0].id, "inv1");
}

#[test]
fn audit_pages_are_clipped_windows() {
    let mut lg = Ledger::new();
    for i in 0..4u32 {
        let id = format!("cli{}", i);
        lg.create_client_with(client_req("C"), id.clone(), i as u64).unwrap();
        lg.delete_client_at(&id, (10 + i) as u64).unwrap();
    }
    let page = lg.get_audit_log(Some(1), Some(3));
    assert_eq!(page.total, 4);
    assert_eq!(page.rows.len(), 3);
    assert_eq!(page.rows[0].id, 0);
    let page = lg.get_audit_log(Some(2), Some(3));
    assert_eq!(page.rows.len(), 1);
    assert_eq!(page.rows[0].id, 3);
}

#[test]
fn mark_and_unmark_repoint_the_sale() {
    let mut lg = Ledger::new();
    lg.create_sale_with(sale_req("cli1"), "sale1".to_string(), 10).unwrap();
    lg.mark_sale_invoiced_at(&"sale1".to_string(), &"inv1".to_string(), 20).unwrap();
    assert!(lg.sales[0].is_invoiced);
    assert_eq!(lg.sales[0].invoice_id.as_deref(), Some("inv1"));

    lg.unmark_sale_invoiced_at(&"sale1".to_string(), 30).unwrap();
    assert!(!lg.sales[0].is_invoiced);
    assert_eq!(lg.sales[0].invoice_id, None);
}

#[test]
fn drawn_keys_are_hyphenated_uuids() {
    // The convenience operations draw their own keys and timestamps.
    let mut lg = Ledger::new();
    let row = lg.create_client(client_req("Acme")).unwrap();
    assert_eq!(row.id.len(), 36, "a drawn key is a hyphenated UUID");
    assert_eq!(row.id.chars().filter(|c| *c == '-').count(), 4);
    let again = lg.create_client(client_req("Acme Two")).unwrap();
    assert_ne!(row.id, again.id, "two drawn keys differ");
    assert_eq!(lg.clients.len(), 2);
}

#[test]
fn convenience_operations_drive_the_same_engine() {
    let mut lg = Ledger::new();
    let sale = lg.create_sale(sale_req("cli1")).unwrap();
    let inv = lg
        .create_invoice(ledger_engine::model::CreateInvoiceRequest {
            invoice_number: "INV-001".to_string(),
            client_id: "cli1".to_string(),
            date: 1,
            due_date: 2,
            total_amount_ht: 100,
            total_amount_ttc: 120,
            is_paid: false,
            paid_at: None,
            sales_ids: vec![sale.id.clone()],
        })
        .unwrap();
    lg.create_payment(ledger_engine::model::CreatePaymentRequest {
        sale_id: Some(sale.id.clone()),
        invoice_id: None,
        client_id: "cli1".to_string(),
        amount: 120,
        date: 1,
        method: "cash".to_string(),
        notes: None,
        check_number: None,
    })
    .unwrap();
    let row = lg.invoices.iter().find(|v| v.id == inv.id).unwrap();
    assert!(row.is_paid, "the covering payment marks the invoice paid");
    assert!(row.paid_at.is_some());
}

#[test]
fn invoice_member_listing_follows_back_references() {
    let mut lg = Ledger::new();
    lg.create_sale_with(sale_req("cli1"), "sale1".to_string(), 10).unwrap();
    lg.create_sale_with(sale_req("cli1"), "sale2".to_string(), 11).unwrap();
    lg.create_sale_with(sale_req("cli1"), "sale3".to_string(), 12).unwrap();
    lg.create_invoice_with(
        ledger_engine::model::CreateInvoiceRequest {
            invoice_number: "INV-001".to_string(),
            client_id: "cli1".to_string(),
            date: 1,
            due_date: 2,
            total_amount_ht: 100,
            total_amount_ttc: 120,
            is_paid: false,
            paid_at: None,
            sales_ids: vec!["sale1".to_string(), "sale3".to_string()],
        },
        "inv1".to_string(),
        20,
    )
    .unwrap();
    let members = lg.invoice_member_sale_ids(&"inv1".to_string());
    assert_eq!(members, vec!["sale1".to_string(), "sale3".to_string()]);
    assert!(lg.invoice_member_sale_ids(&"ghost".to_string()).is_empty());
}
