use vstd::prelude::*;

use crate::ledger::{has_live_member, invoice_deleted, keeps_other_sales, linked, sale_live,
    Ledger};
use crate::model::{Invoice, InvoiceSale, Payment};
use crate::payments::{delete_payment_post, restore_payment_post};
use crate::reconcile::{payment_sum, reconcile_writes, reconciled_invoice,
    recompute_invoice_status_post, recomputed_rows};
use crate::sales::{delete_sale_post, no_deleted_member, restore_sale_post, sales_with_deleted,
    sales_with_restored};

verus! {

/// One reconciliation pass settles a row: a second pass over the
/// same effective sum changes nothing and would write nothing,
/// whatever time it runs at.
proof fn lemma_reconciled_settled(v: Invoice, sum: int, t1: u64, t2: u64)
    ensures
        reconciled_invoice(reconciled_invoice(v, sum, t1), sum, t2) == reconciled_invoice(
            v,
            sum,
            t1,
        ),
        !reconcile_writes(reconciled_invoice(v, sum, t1), sum),
{
}

/// Reconciliation is idempotent: recomputing an invoice's status
/// twice in a row, with no intervening payment or total change,
/// leaves the second call with nothing to write and the same paid
/// state and timestamp, whatever time the second call runs at.
pub proof fn lemma_recompute_idempotent(
    pre: Ledger,
    mid: Ledger,
    post: Ledger,
    invoice_id: Seq<char>,
    c1: bool,
    c2: bool,
    t1: u64,
    t2: u64,
)
    requires
        recompute_invoice_status_post(pre, mid, invoice_id, Ok(c1), t1),
        recompute_invoice_status_post(mid, post, invoice_id, Ok(c2), t2),
    ensures
        post.invoices@ == mid.invoices@,
        !c2,
{
    let sum = payment_sum(pre.payments@, pre.sales@, invoice_id);
    let vs = pre.invoices@;
    let vs1 = recomputed_rows(vs, pre.payments@, pre.sales@, invoice_id, t1);
    assert forall|j: int| 0 <= j < vs1.len() implies recomputed_rows(
        vs1,
        pre.payments@,
        pre.sales@,
        invoice_id,
        t2,
    )[j] == vs1[j] by {
        lemma_reconciled_settled(vs[j], sum, t1, t2);
    }
    assert(recomputed_rows(vs1, pre.payments@, pre.sales@, invoice_id, t2) =~= vs1);
    assert forall|j: int|
        0 <= j < vs1.len() && vs1[j].id@ == invoice_id && !vs1[j].is_deleted implies
        !reconcile_writes(vs1[j], sum) by {
        lemma_reconciled_settled(vs[j], sum, t1, t2);
    }
}

/// The threshold law (I2): after a reconciliation pass, a row is
/// marked paid exactly when the effective payment sum reaches its
/// tax-inclusive total, and it carries a paid timestamp exactly when
/// it is marked paid.
pub proof fn lemma_status_matches_threshold(v: Invoice, sum: int, t: u64)
    ensures
        reconciled_invoice(v, sum, t).is_paid == (sum >= v.total_amount_ttc),
        (reconciled_invoice(v, sum, t).paid_at is Some) == (sum >= v.total_amount_ttc),
{
}

/// The threshold law at the operation level: after the status
/// recomputation succeeds, every live row of the invoice is marked
/// paid exactly when the live payments attached to it reach its
/// total, with the paid timestamp present exactly then (I2).
pub proof fn lemma_recompute_matches_threshold(
    pre: Ledger,
    post: Ledger,
    invoice_id: Seq<char>,
    c: bool,
    t: u64,
    j: int,
)
    requires
        recompute_invoice_status_post(pre, post, invoice_id, Ok(c), t),
        0 <= j < post.invoices@.len(),
        post.invoices@[j].id@ == invoice_id,
        !post.invoices@[j].is_deleted,
    ensures
        post.invoices@[j].is_paid == (payment_sum(pre.payments@, pre.sales@, invoice_id)
            >= post.invoices@[j].total_amount_ttc),
        (post.invoices@[j].paid_at is Some) == post.invoices@[j].is_paid,
{
    let sum = payment_sum(pre.payments@, pre.sales@, invoice_id);
    lemma_status_matches_threshold(pre.invoices@[j], sum, t);
}

/// Paid status is never sticky: soft-deleting a payment that drops
/// an invoice's effective sum below its total reverts that invoice
/// to unpaid and clears its paid timestamp, however firmly it was
/// marked paid before.
pub proof fn lemma_payment_delete_unpays(
    pre: Ledger,
    post: Ledger,
    payment_id: Seq<char>,
    invoice_id: Seq<char>,
    t: u64,
    j: int,
)
    requires
        delete_payment_post(pre, post, payment_id, Ok(()), t),
        0 <= j < pre.invoices@.len(),
        pre.invoices@[j].id@ == invoice_id,
        !pre.invoices@[j].is_deleted,
        payment_sum(post.payments@, post.sales@, invoice_id) < pre.invoices@[j].total_amount_ttc,
    ensures
        !post.invoices@[j].is_paid,
        post.invoices@[j].paid_at is None,
{
    let sum = payment_sum(post.payments@, post.sales@, invoice_id);
    lemma_status_matches_threshold(pre.invoices@[j], sum, t);
}

/// Restoring a payment that brings an invoice's effective sum back
/// up to its total marks that invoice paid again, with a timestamp.
pub proof fn lemma_payment_restore_repays(
    pre: Ledger,
    post: Ledger,
    payment_id: Seq<char>,
    invoice_id: Seq<char>,
    t: u64,
    j: int,
)
    requires
        restore_payment_post(pre, post, payment_id, Ok(()), t),
        0 <= j < pre.invoices@.len(),
        pre.invoices@[j].id@ == invoice_id,
        !pre.invoices@[j].is_deleted,
        payment_sum(post.payments@, post.sales@, invoice_id) >= pre.invoices@[j].total_amount_ttc,
    ensures
        post.invoices@[j].is_paid,
        post.invoices@[j].paid_at is Some,
{
    let sum = payment_sum(post.payments@, post.sales@, invoice_id);
    lemma_status_matches_threshold(pre.invoices@[j], sum, t);
}

/// Every row of the filtered link table is a row of the original.
proof fn lemma_filtered_link_origin(ls: Seq<InvoiceSale>, sale_id: Seq<char>, l: int)
    requires
        0 <= l < ls.filter(keeps_other_sales(sale_id)).len(),
    ensures
        exists|m: int|
            0 <= m < ls.len() && ls[m] == ls.filter(keeps_other_sales(sale_id))[l],
    decreases ls.len(),
{
    reveal(Seq::filter);
    if ls.len() > 0 {
        let sub = ls.drop_last().filter(keeps_other_sales(sale_id));
        if l < sub.len() {
            lemma_filtered_link_origin(ls.drop_last(), sale_id, l);
            let m = choose|m: int|
                0 <= m < ls.drop_last().len() && ls.drop_last()[m] == sub[l];
            assert(ls[m] == ls.filter(keeps_other_sales(sale_id))[l]);
        } else {
            assert(ls[ls.len() - 1] == ls.filter(keeps_other_sales(sale_id))[l]);
        }
    }
}

/// The cascade of deleting a sole member (I6): when every membership
/// row of an invoice points at the sale being deleted, deleting that
/// sale soft-deletes the invoice as well.
pub proof fn lemma_sole_member_delete_cascades(
    pre: Ledger,
    post: Ledger,
    sale_id: Seq<char>,
    invoice_id: Seq<char>,
    t: u64,
    j: int,
)
    requires
        delete_sale_post(pre, post, sale_id, Ok(()), t),
        0 <= j < pre.invoices@.len(),
        pre.invoices@[j].id@ == invoice_id,
        linked(pre.invoice_sales@, invoice_id, sale_id),
        forall|l: int|
            0 <= l < pre.invoice_sales@.len() && pre.invoice_sales@[l].invoice_id@ == invoice_id
                ==> pre.invoice_sales@[l].sale_id@ == sale_id,
    ensures
        post.invoices@[j].is_deleted,
{
    let ls_old = pre.invoice_sales@;
    let ls_new = ls_old.filter(keeps_other_sales(sale_id));
    let ss_new = sales_with_deleted(pre.sales@, sale_id, t);
    assert forall|l: int|
        0 <= l < ls_new.len() && ls_new[l].invoice_id@ == invoice_id implies !sale_live(
        ss_new,
        ls_new[l].sale_id@,
    ) by {
        ls_old.lemma_filter_pred(keeps_other_sales(sale_id), l);
        lemma_filtered_link_origin(ls_old, sale_id, l);
        let m = choose|m: int| 0 <= m < ls_old.len() && ls_old[m] == ls_new[l];
        assert(ls_old[m].sale_id@ == sale_id);
        assert(false);
    }
    assert(!has_live_member(ls_new, ss_new, invoice_id));
    assert(post.invoices@[j] == invoice_deleted(pre.invoices@[j], t));
}

/// The other half of the cascade rule: an invoice that keeps another
/// live member sale stays active when one of its sales is deleted.
pub proof fn lemma_live_comember_preserves_invoice(
    pre: Ledger,
    post: Ledger,
    sale_id: Seq<char>,
    invoice_id: Seq<char>,
    other_sale: Seq<char>,
    t: u64,
    j: int,
)
    requires
        delete_sale_post(pre, post, sale_id, Ok(()), t),
        0 <= j < pre.invoices@.len(),
        pre.invoices@[j].id@ == invoice_id,
        !pre.invoices@[j].is_deleted,
        linked(pre.invoice_sales@, invoice_id, other_sale),
        other_sale != sale_id,
        sale_live(pre.sales@, other_sale),
    ensures
        !post.invoices@[j].is_deleted,
{
    let ls_old = pre.invoice_sales@;
    let ls_new = ls_old.filter(keeps_other_sales(sale_id));
    let ss_new = sales_with_deleted(pre.sales@, sale_id, t);
    let l = choose|l: int|
        0 <= l < ls_old.len() && ls_old[l].invoice_id@ == invoice_id && ls_old[l].sale_id@
            == other_sale;
    ls_old.lemma_filter_contains(keeps_other_sales(sale_id), l);
    let m = choose|m: int| 0 <= m < ls_new.len() && ls_new[m] == ls_old[l];
    let k = choose|k: int|
        0 <= k < pre.sales@.len() && pre.sales@[k].id@ == other_sale && !pre.sales@[k].is_deleted;
    assert(ss_new[k].id@ == other_sale && !ss_new[k].is_deleted);
    assert(sale_live(ss_new, ls_new[m].sale_id@));
    assert(has_live_member(ls_new, ss_new, invoice_id));
}

/// The restore half of the cascade (I5): restoring a sale restores
/// an invoice it belongs to - through a remaining membership row or
/// through its own back-reference - once none of that invoice's
/// member sales is left soft-deleted.
pub proof fn lemma_restore_sale_restores_invoice(
    pre: Ledger,
    post: Ledger,
    sale_id: Seq<char>,
    invoice_id: Seq<char>,
    t: u64,
    j: int,
)
    requires
        restore_sale_post(pre, post, sale_id, Ok(()), t),
        0 <= j < pre.invoices@.len(),
        pre.invoices@[j].id@ == invoice_id,
        linked(pre.invoice_sales@, invoice_id, sale_id) || crate::reconcile::sale_links_invoice(
            sales_with_restored(pre.sales@, sale_id),
            sale_id,
            invoice_id,
        ),
        no_deleted_member(pre.invoice_sales@, sales_with_restored(pre.sales@, sale_id), invoice_id),
    ensures
        !post.invoices@[j].is_deleted,
{
    let sum = payment_sum(
        crate::sales::sale_payments_restored(pre.payments@, sale_id),
        sales_with_restored(pre.sales@, sale_id),
        invoice_id,
    );
    lemma_status_matches_threshold(
        crate::ledger::invoice_restored(pre.invoices@[j]),
        sum,
        t,
    );
}

} // verus!
