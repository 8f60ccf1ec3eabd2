use vstd::prelude::*;

use crate::model::{clone_opt_string, CreateSaleItemRequest, Error, ValidationFault, SaleItem};

verus! {

/// A string is blank when every character is plain whitespace, which
/// covers the empty string.
pub open spec fn blank(s: Seq<char>) -> bool {
    forall|i: int|
        0 <= i < s.len() ==> (s[i] == ' ' || s[i] == '\t' || s[i] == '\n' || s[i] == '\r')
}

/// The numeric value of an optional measurement, with absence read as
/// zero.
pub open spec fn opt_or_zero(o: Option<u64>) -> int {
    match o {
        Some(v) => v as int,
        None => 0,
    }
}

fn is_blank(s: &String) -> (r: bool)
    ensures
        r == blank(s@),
{
    let text: &str = s.as_str();
    let n: usize = text.unicode_len();
    let mut i: usize = 0;
    while i < n
        invariant
            i <= n,
            n == text@.len(),
            text@ == s@,
            forall|j: int|
                0 <= j < i ==> (s@[j] == ' ' || s@[j] == '\t' || s@[j] == '\n' || s@[j] == '\r'),
        decreases n - i,
    {
        let c: char = text.get_char(i);
        if !(c == ' ' || c == '\t' || c == '\n' || c == '\r') {
            return false;
        }
        i = i + 1;
    }
    true
}

fn has_kind(s: &String, kind: &str) -> (r: bool)
    ensures
        r == (s@ == kind@),
{
    let k: String = String::from_str(kind);
    *s == k
}

/// The derived total of one line item, in cents, as an unbounded
/// integer. Coils and slit strips are priced by weight; corrugated
/// sheets by quantity times length (the width field carries the
/// length for that product type). Any other product type passes the
/// caller-supplied total through. Divisions truncate, which is the
/// documented rounding of the fixed-point representation.
pub open spec fn spec_item_total(item: CreateSaleItemRequest) -> int {
    if item.product_type@ == "coil"@ {
        (item.price_per_ton as int) * opt_or_zero(item.coil_weight) / 1000
    } else if item.product_type@ == "corrugated_sheet"@ {
        (item.quantity as int) * opt_or_zero(item.coil_width) * (item.price_per_ton as int)
            / 1000000
    } else if item.product_type@ == "steel_slitting"@ {
        (item.price_per_ton as int) * opt_or_zero(item.coil_weight) / 1000
    } else {
        item.total_amount as int
    }
}

/// The result of the total computation: the derived total when it is
/// representable, and an overflow fault otherwise.
pub open spec fn spec_calculate_total(item: CreateSaleItemRequest) -> Result<u64, Error> {
    if spec_item_total(item) <= u64::MAX {
        Ok(spec_item_total(item) as u64)
    } else {
        Err(Error::Validation(ValidationFault::TotalOverflow))
    }
}

/// The validation verdict on one line item, checked in a fixed order:
/// description, product type, then the fields that the product type
/// requires to be present and positive.
pub open spec fn spec_validate_item(item: CreateSaleItemRequest) -> Result<(), Error> {
    if blank(item.description@) {
        Err(Error::Validation(ValidationFault::DescriptionRequired))
    } else if blank(item.product_type@) {
        Err(Error::Validation(ValidationFault::ProductTypeRequired))
    } else if item.product_type@ == "coil"@ {
        if opt_or_zero(item.coil_thickness) == 0 {
            Err(Error::Validation(ValidationFault::ThicknessRequired))
        } else if opt_or_zero(item.coil_width) == 0 {
            Err(Error::Validation(ValidationFault::WidthRequired))
        } else if opt_or_zero(item.coil_weight) == 0 {
            Err(Error::Validation(ValidationFault::WeightRequired))
        } else {
            Ok(())
        }
    } else if item.product_type@ == "corrugated_sheet"@ {
        if opt_or_zero(item.coil_width) == 0 {
            Err(Error::Validation(ValidationFault::WidthRequired))
        } else if item.quantity == 0 {
            Err(Error::Validation(ValidationFault::QuantityRequired))
        } else {
            Ok(())
        }
    } else if item.product_type@ == "steel_slitting"@ {
        if opt_or_zero(item.coil_weight) == 0 {
            Err(Error::Validation(ValidationFault::WeightRequired))
        } else if item.quantity == 0 {
            Err(Error::Validation(ValidationFault::QuantityRequired))
        } else {
            Ok(())
        }
    } else {
        Ok(())
    }
}

fn opt_value(o: &Option<u64>) -> (r: u64)
    ensures
        r as int == opt_or_zero(*o),
{
    match o {
        Some(v) => *v,
        None => 0u64,
    }
}

/// Checks the per-type field requirements of one line item without
/// touching any state.
pub fn validate_sale_item(item: &CreateSaleItemRequest) -> (r: Result<(), Error>)
    ensures
        r == spec_validate_item(*item),
{
    if is_blank(&item.description) {
        return Err(Error::Validation(ValidationFault::DescriptionRequired));
    }
    if is_blank(&item.product_type) {
        return Err(Error::Validation(ValidationFault::ProductTypeRequired));
    }
    if has_kind(&item.product_type, "coil") {
        if opt_value(&item.coil_thickness) == 0 {
            return Err(Error::Validation(ValidationFault::ThicknessRequired));
        }
        if opt_value(&item.coil_width) == 0 {
            return Err(Error::Validation(ValidationFault::WidthRequired));
        }
        if opt_value(&item.coil_weight) == 0 {
            return Err(Error::Validation(ValidationFault::WeightRequired));
        }
        return Ok(());
    }
    if has_kind(&item.product_type, "corrugated_sheet") {
        if opt_value(&item.coil_width) == 0 {
            return Err(Error::Validation(ValidationFault::WidthRequired));
        }
        if item.quantity == 0 {
            return Err(Error::Validation(ValidationFault::QuantityRequired));
        }
        return Ok(());
    }
    if has_kind(&item.product_type, "steel_slitting") {
        if opt_value(&item.coil_weight) == 0 {
            return Err(Error::Validation(ValidationFault::WeightRequired));
        }
        if item.quantity == 0 {
            return Err(Error::Validation(ValidationFault::QuantityRequired));
        }
        return Ok(());
    }
    Ok(())
}

/// Computes the derived total of one line item in cents, rejecting a
/// result that does not fit the stored representation.
pub fn calculate_total_amount(item: &CreateSaleItemRequest) -> (r: Result<u64, Error>)
    ensures
        r == spec_calculate_total(*item),
{
    let max64: u128 = u64::MAX as u128;
    if has_kind(&item.product_type, "coil") {
        weight_priced_total(item.price_per_ton, opt_value(&item.coil_weight))
    } else if has_kind(&item.product_type, "corrugated_sheet") {
        let q: u64 = item.quantity;
        let wd: u64 = opt_value(&item.coil_width);
        let p: u64 = item.price_per_ton;
        assert((q as u128) as int * ((wd as u128) as int) <= u128::MAX) by (nonlinear_arith)
            requires
                q <= u64::MAX,
                wd <= u64::MAX,
        ;
        let qw: u128 = (q as u128) * (wd as u128);
        if p > 0 && qw > u128::MAX / (p as u128) {
            proof {
                lemma_div_overflow(qw as int, p as int);
            }
            return Err(Error::Validation(ValidationFault::TotalOverflow));
        }
        assert((qw as int) * (p as int) <= u128::MAX) by (nonlinear_arith)
            requires
                p == 0 || qw <= (u128::MAX as int) / (p as int),
                0 <= qw,
                0 <= p,
        ;
        let product: u128 = qw * (p as u128);
        let total: u128 = product / 1000000;
        if total <= max64 {
            Ok(total as u64)
        } else {
            Err(Error::Validation(ValidationFault::TotalOverflow))
        }
    } else if has_kind(&item.product_type, "steel_slitting") {
        weight_priced_total(item.price_per_ton, opt_value(&item.coil_weight))
    } else {
        Ok(item.total_amount)
    }
}

/// The weight-priced total shared by coils and slit strips: price per
/// ton times weight in thousandths of a ton.
fn weight_priced_total(p: u64, w: u64) -> (r: Result<u64, Error>)
    ensures
        (p as int) * (w as int) / 1000 <= u64::MAX ==> r == Ok::<u64, Error>(
            ((p as int) * (w as int) / 1000) as u64,
        ),
        (p as int) * (w as int) / 1000 > u64::MAX ==> r == Err::<u64, Error>(
            Error::Validation(ValidationFault::TotalOverflow),
        ),
{
    assert((p as u128) as int * ((w as u128) as int) <= u128::MAX) by (nonlinear_arith)
        requires
            p <= u64::MAX,
            w <= u64::MAX,
    ;
    let product: u128 = (p as u128) * (w as u128);
    let total: u128 = product / 1000;
    if total <= u64::MAX as u128 {
        Ok(total as u64)
    } else {
        Err(Error::Validation(ValidationFault::TotalOverflow))
    }
}

/// A product of two nonnegative factors that exceeds the largest
/// 128-bit value stays far above the largest 64-bit value even after
/// the fixed-point division by one million.
proof fn lemma_div_overflow(qw: int, p: int)
    requires
        0 <= qw,
        0 < p,
        qw > (u128::MAX as int) / p,
    ensures
        qw * p / 1000000 > u64::MAX,
{
    assert(qw * p > u128::MAX) by (nonlinear_arith)
        requires
            0 < p,
            qw > (u128::MAX as int) / p,
    ;
    assert(qw * p / 1000000 > u64::MAX) by (nonlinear_arith)
        requires
            qw * p > u128::MAX,
    ;
}

/// The stored row built from a valid line-item request, carrying the
/// derived total; meaningful only when that total is representable.
pub open spec fn spec_item_from(req: CreateSaleItemRequest) -> SaleItem {
    SaleItem {
        description: req.description,
        coil_ref: req.coil_ref,
        coil_thickness: req.coil_thickness,
        coil_width: req.coil_width,
        top_coat_ral: req.top_coat_ral,
        back_coat_ral: req.back_coat_ral,
        coil_weight: req.coil_weight,
        quantity: req.quantity,
        price_per_ton: req.price_per_ton,
        total_amount: spec_item_total(req) as u64,
        product_type: req.product_type,
    }
}

/// The validation-and-derivation verdict on one line item: the stored
/// row on success, the first fault otherwise.
pub open spec fn spec_check_item(req: CreateSaleItemRequest) -> Result<SaleItem, Error> {
    match spec_validate_item(req) {
        Err(e) => Err(e),
        Ok(u) => match spec_calculate_total(req) {
            Err(e) => Err(e),
            Ok(total) => Ok(spec_item_from(req)),
        },
    }
}

/// The row set built from a request list, front to back, stopping at
/// the first invalid item.
pub open spec fn spec_build_items(reqs: Seq<CreateSaleItemRequest>) -> Result<Seq<SaleItem>, Error>
    decreases reqs.len(),
{
    if reqs.len() == 0 {
        Ok(Seq::empty())
    } else {
        match spec_build_items(reqs.drop_last()) {
            Err(e) => Err(e),
            Ok(rows) => match spec_check_item(reqs.last()) {
                Err(e) => Err(e),
                Ok(row) => Ok(rows.push(row)),
            },
        }
    }
}

fn build_item(req: &CreateSaleItemRequest) -> (r: Result<SaleItem, Error>)
    ensures
        r == spec_check_item(*req),
{
    if let Err(e) = validate_sale_item(req) {
        return Err(e);
    }
    let total: u64 = match calculate_total_amount(req) {
        Ok(t) => t,
        Err(e) => {
            return Err(e);
        },
    };
    Ok(
        SaleItem {
            description: req.description.clone(),
            coil_ref: clone_opt_string(&req.coil_ref),
            coil_thickness: req.coil_thickness,
            coil_width: req.coil_width,
            top_coat_ral: clone_opt_string(&req.top_coat_ral),
            back_coat_ral: clone_opt_string(&req.back_coat_ral),
            coil_weight: req.coil_weight,
            quantity: req.quantity,
            price_per_ton: req.price_per_ton,
            total_amount: total,
            product_type: req.product_type.clone(),
        },
    )
}

/// A verdict on a prefix extends to the whole list: once an item has
/// failed, later items cannot change the outcome.
proof fn lemma_build_items_err(reqs: Seq<CreateSaleItemRequest>, k: int)
    requires
        0 <= k <= reqs.len(),
        spec_build_items(reqs.take(k)) is Err,
    ensures
        spec_build_items(reqs) == spec_build_items(reqs.take(k)),
    decreases reqs.len() - k,
{
    if k == reqs.len() {
        assert(reqs.take(k) == reqs);
    } else {
        assert(reqs.take(k + 1).drop_last() == reqs.take(k));
        lemma_build_items_err(reqs, k + 1);
    }
}

/// Validates every line item of a request and derives its stored
/// total, producing either the full row set or the first fault, with
/// nothing written either way.
pub fn build_sale_items(reqs: &Vec<CreateSaleItemRequest>) -> (r: Result<Vec<SaleItem>, Error>)
    ensures
        match r {
            Ok(rows) => spec_build_items(reqs@) == Ok::<Seq<SaleItem>, Error>(rows@),
            Err(e) => spec_build_items(reqs@) == Err::<Seq<SaleItem>, Error>(e),
        },
{
    let mut rows: Vec<SaleItem> = Vec::new();
    let n: usize = reqs.len();
    let mut i: usize = 0;
    while i < n
        invariant
            i <= n,
            n == reqs@.len(),
            spec_build_items(reqs@.take(i as int)) == Ok::<Seq<SaleItem>, Error>(rows@),
        decreases n - i,
    {
        match build_item(&reqs[i]) {
            Ok(row) => {
                rows.push(row);
                proof {
                    assert(reqs@.take(i + 1).drop_last() == reqs@.take(i as int));
                    assert(reqs@.take(i + 1).last() == reqs@[i as int]);
                }
            },
            Err(e) => {
                proof {
                    assert(reqs@.take(i + 1).drop_last() == reqs@.take(i as int));
                    assert(reqs@.take(i + 1).last() == reqs@[i as int]);
                    lemma_build_items_err(reqs@, i + 1);
                }
                return Err(e);
            },
        }
        i = i + 1;
    }
    proof {
        assert(reqs@.take(n as int) == reqs@);
    }
    Ok(rows)
}

} // verus!
