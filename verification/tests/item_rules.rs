use ledger_engine::items::{calculate_total_amount, validate_sale_item};
use ledger_engine::model::{CreateSaleItemRequest, Error, ValidationFault};

fn item(product_type: &str) -> CreateSaleItemRequest {
    CreateSaleItemRequest {
        description: "galvanized coil".to_string(),
        coil_ref: None,
        coil_thickness: None,
        coil_width: None,
        top_coat_ral: None,
        back_coat_ral: None,
        coil_weight: None,
        quantity: 0,
        price_per_ton: 0,
        total_amount: 0,
        product_type: product_type.to_string(),
    }
}

#[test]
fn coil_total_is_price_times_weight() {
    // 100.00 per ton at 3 tons comes to 300.00
    let mut it = item("coil");
    it.coil_thickness = Some(500);
    it.coil_width = Some(1000);
    it.coil_weight = Some(3000);
    it.price_per_ton = 10000;
    assert_eq!(calculate_total_amount(&it), Ok(30000));
}

#[test]
fn corrugated_sheet_total_is_quantity_times_length_times_price() {
    // 2 sheets of length 5 at 10.00 per unit come to 100.00
    let mut it = item("corrugated_sheet");
    it.coil_width = Some(5000);
    it.quantity = 2000;
    it.price_per_ton = 1000;
    assert_eq!(calculate_total_amount(&it), Ok(10000));
}

#[test]
fn steel_slitting_total_is_price_times_weight() {
    let mut it = item("steel_slitting");
    it.coil_weight = Some(1500);
    it.quantity = 1000;
    it.price_per_ton = 20000;
    assert_eq!(calculate_total_amount(&it), Ok(30000));
}

#[test]
fn unknown_type_passes_total_through() {
    let mut it = item("accessory");
    it.total_amount = 4242;
    assert_eq!(calculate_total_amount(&it), Ok(4242));
}

#[test]
fn oversized_total_is_rejected() {
    let mut it = item("coil");
    it.coil_thickness = Some(1);
    it.coil_width = Some(1);
    it.coil_weight = Some(u64::MAX);
    it.price_per_ton = u64::MAX;
    assert_eq!(
        calculate_total_amount(&it),
        Err(Error::Validation(ValidationFault::TotalOverflow))
    );
}

#[test]
fn blank_description_is_rejected() {
    let mut it = item("coil");
    it.description = "   ".to_string();
    assert_eq!(
        validate_sale_item(&it),
        Err(Error::Validation(ValidationFault::DescriptionRequired))
    );
}

#[test]
fn blank_product_type_is_rejected() {
    let it = item(" \t ");
    assert_eq!(
        validate_sale_item(&it),
        Err(Error::Validation(ValidationFault::ProductTypeRequired))
    );
}

#[test]
fn coil_requires_thickness_width_and_weight() {
    let mut it = item("coil");
    assert_eq!(
        validate_sale_item(&it),
        Err(Error::Validation(ValidationFault::ThicknessRequired))
    );
    it.coil_thickness = Some(500);
    assert_eq!(
        validate_sale_item(&it),
        Err(Error::Validation(ValidationFault::WidthRequired))
    );
    it.coil_width = Some(1000);
    assert_eq!(
        validate_sale_item(&it),
        Err(Error::Validation(ValidationFault::WeightRequired))
    );
    it.coil_weight = Some(2000);
    assert_eq!(validate_sale_item(&it), Ok(()));
}

#[test]
fn corrugated_sheet_requires_length_and_quantity() {
    let mut it = item("corrugated_sheet");
    assert_eq!(
        validate_sale_item(&it),
        Err(Error::Validation(ValidationFault::WidthRequired))
    );
    it.coil_width = Some(5000);
    assert_eq!(
        validate_sale_item(&it),
        Err(Error::Validation(ValidationFault::QuantityRequired))
    );
    it.quantity = 1000;
    assert_eq!(validate_sale_item(&it), Ok(()));
}

#[test]
fn steel_slitting_requires_weight_and_quantity() {
    let mut it = item("steel_slitting");
    assert_eq!(
        validate_sale_item(&it),
        Err(Error::Validation(ValidationFault::WeightRequired))
    );
    it.coil_weight = Some(800);
    assert_eq!(
        validate_sale_item(&it),
        Err(Error::Validation(ValidationFault::QuantityRequired))
    );
    it.quantity = 1000;
    assert_eq!(validate_sale_item(&it), Ok(()));
}

#[test]
fn unknown_type_needs_no_measurements() {
    let it = item("accessory");
    assert_eq!(validate_sale_item(&it), Ok(()));
}
