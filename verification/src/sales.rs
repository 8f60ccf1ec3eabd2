use vstd::prelude::*;

use crate::items::{build_sale_items, spec_build_items};
use crate::ledger::{append_audit, audit_appended, find_sale, has_sale, has_live_member,
    invoice_deleted, invoice_restored, keeps_other_sales, linked, mark_sale_payments_deleted,
    mark_sale_payments_restored, mark_sales_deleted, mark_sales_restored, opt_id_is,
    remove_sale_links, sale_deleted, sale_is_live, sale_live, sale_restored, Ledger};
use crate::model::{clone_opt_string, CreateSaleRequest, Error, Invoice, InvoiceSale,
    PaginatedSalesResult, Payment, Sale,
    SaleItem};
use crate::reconcile::{payment_sum, payment_total, reconciled_invoice,
    refresh_invoices, refreshed_invoices, sale_links_invoice};

verus! {

/// A sale row that is not soft-deleted.
pub open spec fn is_live_sale() -> spec_fn(Sale) -> bool {
    |s: Sale| !s.is_deleted
}

/// A sale row that is soft-deleted.
pub open spec fn is_deleted_sale() -> spec_fn(Sale) -> bool {
    |s: Sale| s.is_deleted
}

/// The sale table after soft-deleting every row with this id.
pub open spec fn sales_with_deleted(ss: Seq<Sale>, id: Seq<char>, t: u64) -> Seq<Sale> {
    Seq::new(
        ss.len(),
        |i: int|
            if ss[i].id@ == id {
                sale_deleted(ss[i], t)
            } else {
                ss[i]
            },
    )
}

/// The sale table after clearing soft-delete on every row with this
/// id.
pub open spec fn sales_with_restored(ss: Seq<Sale>, id: Seq<char>) -> Seq<Sale> {
    Seq::new(
        ss.len(),
        |i: int|
            if ss[i].id@ == id {
                sale_restored(ss[i])
            } else {
                ss[i]
            },
    )
}

/// The payment table after soft-deleting every row that belongs to
/// this sale.
pub open spec fn sale_payments_deleted(ps: Seq<Payment>, sale_id: Seq<char>, t: u64) -> Seq<
    Payment,
> {
    Seq::new(
        ps.len(),
        |i: int|
            if opt_id_is(ps[i].sale_id, sale_id) {
                crate::ledger::payment_deleted(ps[i], t)
            } else {
                ps[i]
            },
    )
}

/// The payment table after clearing soft-delete on every row that
/// belongs to this sale.
pub open spec fn sale_payments_restored(ps: Seq<Payment>, sale_id: Seq<char>) -> Seq<Payment> {
    Seq::new(
        ps.len(),
        |i: int|
            if opt_id_is(ps[i].sale_id, sale_id) {
                crate::ledger::payment_restored(ps[i])
            } else {
                ps[i]
            },
    )
}

/// Whether some invoice row with this id is marked paid.
pub open spec fn invoice_paid(vs: Seq<Invoice>, id: Seq<char>) -> bool {
    exists|i: int| 0 <= i < vs.len() && vs[i].id@ == id && vs[i].is_paid
}

/// Whether deleting this sale is blocked: some membership row links
/// it into an invoice that is marked paid (I3).
pub open spec fn guard_blocks(ls: Seq<InvoiceSale>, vs: Seq<Invoice>, sale_id: Seq<char>) -> bool {
    exists|l: int|
        0 <= l < ls.len() && ls[l].sale_id@ == sale_id && invoice_paid(vs, ls[l].invoice_id@)
}

/// One row after the fields of a full sale update are written over
/// it: the request replaces every user-set field and the item rows
/// wholesale, while the key, creation stamp and soft-delete state
/// survive.
pub open spec fn sale_row_updated(
    pre: Sale,
    post: Sale,
    req: CreateSaleRequest,
    rows: Seq<SaleItem>,
    t: u64,
) -> bool {
    &&& post.id == pre.id
    &&& post.client_id == req.client_id
    &&& post.date == req.date
    &&& post.total_amount == req.total_amount
    &&& post.total_amount_ttc == req.total_amount_ttc
    &&& post.is_invoiced == req.is_invoiced
    &&& post.invoice_id == req.invoice_id
    &&& post.notes == req.notes
    &&& post.payment_method == req.payment_method
    &&& post.transportation_fee == req.transportation_fee
    &&& post.tax_rate == req.tax_rate
    &&& post.created_at == pre.created_at
    &&& post.updated_at == Some(t)
    &&& post.is_paid == (match req.is_paid {
        Some(b) => b,
        None => false,
    })
    &&& post.paid_at == req.paid_at
    &&& post.is_deleted == pre.is_deleted
    &&& post.deleted_at == pre.deleted_at
    &&& post.items@ == rows
}

/// The freshly inserted sale row built from a create request.
pub open spec fn sale_row_created(
    post: Sale,
    req: CreateSaleRequest,
    id: Seq<char>,
    rows: Seq<SaleItem>,
    t: u64,
) -> bool {
    &&& post.id@ == id
    &&& post.client_id == req.client_id
    &&& post.date == req.date
    &&& post.total_amount == req.total_amount
    &&& post.total_amount_ttc == req.total_amount_ttc
    &&& post.is_invoiced == req.is_invoiced
    &&& post.invoice_id == req.invoice_id
    &&& post.notes == req.notes
    &&& post.payment_method == req.payment_method
    &&& post.transportation_fee == req.transportation_fee
    &&& post.tax_rate == req.tax_rate
    &&& post.created_at == t
    &&& post.updated_at == Some(t)
    &&& post.is_paid == (match req.is_paid {
        Some(b) => b,
        None => false,
    })
    &&& post.paid_at == req.paid_at
    &&& !post.is_deleted
    &&& post.deleted_at is None
    &&& post.items@ == rows
}

/// Two sale rows that agree on every stored field; item rows are
/// compared by content. This is how a row handed out by a read
/// relates to the row in the table.
pub open spec fn same_sale(a: Sale, b: Sale) -> bool {
    &&& a.id == b.id
    &&& a.client_id == b.client_id
    &&& a.date == b.date
    &&& a.total_amount == b.total_amount
    &&& a.total_amount_ttc == b.total_amount_ttc
    &&& a.is_invoiced == b.is_invoiced
    &&& a.invoice_id == b.invoice_id
    &&& a.notes == b.notes
    &&& a.payment_method == b.payment_method
    &&& a.transportation_fee == b.transportation_fee
    &&& a.tax_rate == b.tax_rate
    &&& a.created_at == b.created_at
    &&& a.updated_at == b.updated_at
    &&& a.is_paid == b.is_paid
    &&& a.paid_at == b.paid_at
    &&& a.is_deleted == b.is_deleted
    &&& a.deleted_at == b.deleted_at
    &&& a.items@ == b.items@
}

fn clone_item(it: &SaleItem) -> (r: SaleItem)
    ensures
        r == *it,
{
    SaleItem {
        description: it.description.clone(),
        coil_ref: clone_opt_string(&it.coil_ref),
        coil_thickness: it.coil_thickness,
        coil_width: it.coil_width,
        top_coat_ral: clone_opt_string(&it.top_coat_ral),
        back_coat_ral: clone_opt_string(&it.back_coat_ral),
        coil_weight: it.coil_weight,
        quantity: it.quantity,
        price_per_ton: it.price_per_ton,
        total_amount: it.total_amount,
        product_type: it.product_type.clone(),
    }
}

fn clone_items(items: &Vec<SaleItem>) -> (r: Vec<SaleItem>)
    ensures
        r@ == items@,
{
    let n: usize = items.len();
    let mut out: Vec<SaleItem> = Vec::new();
    let mut i: usize = 0;
    while i < n
        invariant
            i <= n,
            n == items@.len(),
            out@ == items@.take(i as int),
        decreases n - i,
    {
        out.push(clone_item(&items[i]));
        proof {
            assert(items@.take(i + 1).drop_last() == items@.take(i as int));
            assert(out@ =~= items@.take(i + 1));
        }
        i = i + 1;
    }
    proof {
        assert(items@.take(n as int) == items@);
    }
    out
}

pub fn clone_sale(s: &Sale) -> (r: Sale)
    ensures
        same_sale(r, *s),
{
    Sale {
        id: s.id.clone(),
        client_id: s.client_id.clone(),
        date: s.date,
        total_amount: s.total_amount,
        total_amount_ttc: s.total_amount_ttc,
        is_invoiced: s.is_invoiced,
        invoice_id: clone_opt_string(&s.invoice_id),
        notes: clone_opt_string(&s.notes),
        payment_method: clone_opt_string(&s.payment_method),
        transportation_fee: s.transportation_fee,
        tax_rate: s.tax_rate,
        created_at: s.created_at,
        updated_at: s.updated_at,
        is_paid: s.is_paid,
        paid_at: s.paid_at,
        is_deleted: s.is_deleted,
        deleted_at: s.deleted_at,
        items: clone_items(&s.items),
    }
}

/// The full effect of recording one sale under a given key and
/// timestamp, with its items validated and their totals derived; or
/// the refusal of an invalid item or a taken key, with nothing
/// written.
pub open spec fn create_sale_post(
    pre: Ledger,
    post: Ledger,
    sale: CreateSaleRequest,
    id: Seq<char>,
    r: Result<Sale, Error>,
    now: u64,
) -> bool {
    &&& post.clients@ == pre.clients@
    &&& post.invoices@ == pre.invoices@
    &&& post.invoice_sales@ == pre.invoice_sales@
    &&& post.payments@ == pre.payments@
    &&& post.audit_log@ == pre.audit_log@
    &&& match r {
                Ok(row) => {
                    &&& !has_sale(pre.sales@, id)
                    &&& spec_build_items(sale.items@) is Ok
                    &&& post.sales@.len() == pre.sales@.len() + 1
                    &&& forall|j: int|
                        0 <= j < pre.sales@.len() ==> post.sales@[j] == pre.sales@[j]
                    &&& (match spec_build_items(sale.items@) {
                        Ok(rows) => sale_row_created(post.sales@.last(), sale, id, rows, now)
                            && sale_row_created(row, sale, id, rows, now),
                        Err(e) => false,
                    })
                },
                Err(e) => {
                    &&& post.sales@ == pre.sales@
                    &&& (if has_sale(pre.sales@, id) {
                        e == Error::Storage
                    } else {
                        spec_build_items(sale.items@) == Err::<Seq<SaleItem>, Error>(e)
                    })
                },
            }
}

/// The full effect of rewriting one sale from a full request, its
/// item set replaced wholesale, with the closing reconciliation
/// pass; or the refusal of an invalid item or the report of a
/// missing key, with nothing written.
pub open spec fn update_sale_post(
    pre: Ledger,
    post: Ledger,
    id: Seq<char>,
    sale: CreateSaleRequest,
    r: Result<Sale, Error>,
    now: u64,
) -> bool {
    &&& post.clients@ == pre.clients@
    &&& post.invoice_sales@ == pre.invoice_sales@
    &&& post.payments@ == pre.payments@
    &&& post.audit_log@ == pre.audit_log@
    &&& match r {
                Ok(row) => {
                    &&& has_sale(pre.sales@, id)
                    &&& spec_build_items(sale.items@) is Ok
                    &&& post.sales@.len() == pre.sales@.len()
                    &&& (match spec_build_items(sale.items@) {
                        Ok(rows) => {
                            &&& forall|j: int|
                                0 <= j < pre.sales@.len() ==> (if pre.sales@[j].id@ == id {
                                    sale_row_updated(
                                        pre.sales@[j],
                                        post.sales@[j],
                                        sale,
                                        rows,
                                        now,
                                    )
                                } else {
                                    post.sales@[j] == pre.sales@[j]
                                })
                            &&& (exists|i: int|
                                0 <= i < pre.sales@.len() && pre.sales@[i].id@ == id
                                    && (forall|j: int| 0 <= j < i ==> pre.sales@[j].id@ != id)
                                    && sale_row_updated(pre.sales@[i], row, sale, rows, now))
                        },
                        Err(e) => false,
                    })
                    &&& post.invoices@ == refreshed_invoices(
                        pre.invoices@,
                        pre.payments@,
                        post.sales@,
                        now,
                    )
                },
                Err(e) => {
                    &&& post.sales@ == pre.sales@
                    &&& post.invoices@ == pre.invoices@
                    &&& (if !has_sale(pre.sales@, id) {
                        e == Error::NotFound
                    } else {
                        spec_build_items(sale.items@) == Err::<Seq<SaleItem>, Error>(e)
                    })
                },
            }
}

/// The full effect of soft-deleting one sale with its cascade over
/// payments, membership rows and invoices, and the audit entry; or
/// the rejection that protects a paid invoice, or the report of a
/// missing key, with nothing written either way.
pub open spec fn delete_sale_post(
    pre: Ledger,
    post: Ledger,
    id: Seq<char>,
    r: Result<(), Error>,
    now: u64,
) -> bool {
    &&& post.clients@ == pre.clients@
    &&& match r {
                Ok(u) => {
                    &&& has_sale(pre.sales@, id)
                    &&& !guard_blocks(pre.invoice_sales@, pre.invoices@, id)
                    &&& post.sales@ == sales_with_deleted(pre.sales@, id, now)
                    &&& post.payments@ == sale_payments_deleted(
                        pre.payments@,
                        id,
                        now,
                    )
                    &&& post.invoice_sales@ == pre.invoice_sales@.filter(
                        keeps_other_sales(id),
                    )
                    &&& post.invoices@ == sale_delete_invoices(
                        pre.invoices@,
                        pre.invoice_sales@,
                        pre.payments@,
                        pre.sales@,
                        id,
                        now,
                    )
                    &&& audit_appended(
                        pre.audit_log@,
                        post.audit_log@,
                        "soft_delete"@,
                        "sale"@,
                        id,
                        now,
                        "Sale soft-deleted"@,
                    )
                },
                Err(Error::NotFound) => {
                    &&& !has_sale(pre.sales@, id)
                    &&& (post.clients@ == pre.clients@
                        && post.sales@ == pre.sales@
                        && post.invoices@ == pre.invoices@
                        && post.invoice_sales@ == pre.invoice_sales@
                        && post.payments@ == pre.payments@
                        && post.audit_log@ == pre.audit_log@)
                },
                Err(Error::Conflict(w)) => {
                    &&& has_sale(pre.sales@, id)
                    &&& guard_blocks(pre.invoice_sales@, pre.invoices@, id)
                    &&& exists|l: int|
                        0 <= l < pre.invoice_sales@.len()
                            && pre.invoice_sales@[l].sale_id@ == id
                            && pre.invoice_sales@[l].invoice_id@ == w@ && invoice_paid(
                            pre.invoices@,
                            w@,
                        )
                    &&& (post.clients@ == pre.clients@
                        && post.sales@ == pre.sales@
                        && post.invoices@ == pre.invoices@
                        && post.invoice_sales@ == pre.invoice_sales@
                        && post.payments@ == pre.payments@
                        && post.audit_log@ == pre.audit_log@)
                },
                Err(e) => false,
            }
}

/// The full effect of restoring one soft-deleted sale with its
/// cascade over payments and invoices, and the audit entry; or the
/// report of a missing key, with nothing written.
pub open spec fn restore_sale_post(
    pre: Ledger,
    post: Ledger,
    id: Seq<char>,
    r: Result<(), Error>,
    now: u64,
) -> bool {
    &&& post.clients@ == pre.clients@
    &&& post.invoice_sales@ == pre.invoice_sales@
    &&& match r {
                Ok(u) => {
                    &&& has_sale(pre.sales@, id)
                    &&& post.sales@ == sales_with_restored(pre.sales@, id)
                    &&& post.payments@ == sale_payments_restored(pre.payments@, id)
                    &&& post.invoices@ == sale_restore_invoices(
                        pre.invoices@,
                        pre.invoice_sales@,
                        pre.payments@,
                        pre.sales@,
                        id,
                        now,
                    )
                    &&& audit_appended(
                        pre.audit_log@,
                        post.audit_log@,
                        "restore"@,
                        "sale"@,
                        id,
                        now,
                        "Sale restored"@,
                    )
                },
                Err(e) => {
                    &&& e == Error::NotFound
                    &&& !has_sale(pre.sales@, id)
                    &&& (post.clients@ == pre.clients@
                        && post.sales@ == pre.sales@
                        && post.invoices@ == pre.invoices@
                        && post.invoice_sales@ == pre.invoice_sales@
                        && post.payments@ == pre.payments@
                        && post.audit_log@ == pre.audit_log@)
                },
            }
}

/// The full effect of re-pointing one sale at an invoice, with the
/// closing reconciliation pass; or the report of a missing key,
/// with nothing written.
pub open spec fn mark_sale_invoiced_post(
    pre: Ledger,
    post: Ledger,
    sale_id: Seq<char>,
    invoice_ref: String,
    r: Result<(), Error>,
    now: u64,
) -> bool {
    &&& post.clients@ == pre.clients@
    &&& post.invoice_sales@ == pre.invoice_sales@
    &&& post.payments@ == pre.payments@
    &&& post.audit_log@ == pre.audit_log@
    &&& match r {
                Ok(u) => {
                    &&& has_sale(pre.sales@, sale_id)
                    &&& post.sales@ == sales_with_invoice_ref(
                        pre.sales@,
                        sale_id,
                        Some(invoice_ref),
                        true,
                    )
                    &&& post.invoices@ == refreshed_invoices(
                        pre.invoices@,
                        pre.payments@,
                        post.sales@,
                        now,
                    )
                },
                Err(e) => {
                    &&& e == Error::NotFound
                    &&& !has_sale(pre.sales@, sale_id)
                    &&& post.sales@ == pre.sales@
                    &&& post.invoices@ == pre.invoices@
                },
            }
}

/// The full effect of detaching one sale from its invoice, with the
/// closing reconciliation pass; or the report of a missing key,
/// with nothing written.
pub open spec fn unmark_sale_invoiced_post(
    pre: Ledger,
    post: Ledger,
    sale_id: Seq<char>,
    r: Result<(), Error>,
    now: u64,
) -> bool {
    &&& post.clients@ == pre.clients@
    &&& post.invoice_sales@ == pre.invoice_sales@
    &&& post.payments@ == pre.payments@
    &&& post.audit_log@ == pre.audit_log@
    &&& match r {
                Ok(u) => {
                    &&& has_sale(pre.sales@, sale_id)
                    &&& post.sales@ == sales_with_invoice_ref(
                        pre.sales@,
                        sale_id,
                        None::<String>,
                        false,
                    )
                    &&& post.invoices@ == refreshed_invoices(
                        pre.invoices@,
                        pre.payments@,
                        post.sales@,
                        now,
                    )
                },
                Err(e) => {
                    &&& e == Error::NotFound
                    &&& !has_sale(pre.sales@, sale_id)
                    &&& post.sales@ == pre.sales@
                    &&& post.invoices@ == pre.invoices@
                },
            }
}

impl Ledger {
    /// Records a new sale under the given fresh key and timestamp.
    /// Every line item is validated and its total derived before
    /// anything is written: the first invalid item aborts the whole
    /// creation. A key that is already taken is refused as a storage
    /// fault. No invoice status can shift here, since no payment can
    /// yet reference the new key.
    pub fn create_sale_with(&mut self, sale: CreateSaleRequest, id: String, now: u64) -> (r: Result<
        Sale,
        Error,
    >)
        ensures
            create_sale_post(*old(self), *final(self), sale, id@, r, now),

    {
        if find_sale(&self.sales, &id).is_some() {
            return Err(Error::Storage);
        }
        let rows: Vec<SaleItem> = match build_sale_items(&sale.items) {
            Ok(rows) => rows,
            Err(e) => {
                return Err(e);
            },
        };
        let is_paid: bool = match sale.is_paid {
            Some(b) => b,
            None => false,
        };
        let row = Sale {
            id: id.clone(),
            client_id: sale.client_id,
            date: sale.date,
            total_amount: sale.total_amount,
            total_amount_ttc: sale.total_amount_ttc,
            is_invoiced: sale.is_invoiced,
            invoice_id: sale.invoice_id,
            notes: sale.notes,
            payment_method: sale.payment_method,
            transportation_fee: sale.transportation_fee,
            tax_rate: sale.tax_rate,
            created_at: now,
            updated_at: Some(now),
            is_paid,
            paid_at: sale.paid_at,
            is_deleted: false,
            deleted_at: None,
            items: rows,
        };
        let returned = clone_sale(&row);
        self.sales.push(row);
        Ok(returned)
    }

    /// Rewrites a sale from a full request: every user-set field is
    /// replaced and the item set is replaced wholesale, after the
    /// items pass the same validation as at creation. Ends by
    /// reconciling every live invoice, since re-pointing a sale can
    /// shift which invoice its payments count towards. An unknown key
    /// is reported as missing; an invalid item aborts the update with
    /// nothing written.
    pub fn update_sale_with(&mut self, id: &String, sale: CreateSaleRequest, now: u64) -> (r: Result<
        Sale,
        Error,
    >)
        ensures
            update_sale_post(*old(self), *final(self), id@, sale, r, now),

    {
        let first: usize = match find_sale(&self.sales, id) {
            Some(i) => i,
            None => {
                return Err(Error::NotFound);
            },
        };
        let rows: Vec<SaleItem> = match build_sale_items(&sale.items) {
            Ok(rows) => rows,
            Err(e) => {
                return Err(e);
            },
        };
        let is_paid: bool = match sale.is_paid {
            Some(b) => b,
            None => false,
        };
        let ghost pre = self.sales@;
        let ghost built = rows@;
        let n: usize = self.sales.len();
        let mut j: usize = 0;
        while j < n
            invariant
                j <= n,
                n == self.sales@.len(),
                self.sales@.len() == pre.len(),
                pre == old(self).sales@,
                self.clients@ == old(self).clients@,
                self.invoices@ == old(self).invoices@,
                self.invoice_sales@ == old(self).invoice_sales@,
                self.payments@ == old(self).payments@,
                self.audit_log@ == old(self).audit_log@,
                built == rows@,
                is_paid == (match sale.is_paid {
                    Some(b) => b,
                    None => false,
                }),
                forall|k: int| j <= k < n ==> self.sales@[k] == pre[k],
                forall|k: int|
                    0 <= k < j ==> (if pre[k].id@ == id@ {
                        sale_row_updated(pre[k], self.sales@[k], sale, built, now)
                    } else {
                        self.sales@[k] == pre[k]
                    }),
            decreases n - j,
        {
            if self.sales[j].id == *id {
                let fresh_items: Vec<SaleItem> = clone_items(&rows);
                let row = &mut self.sales[j];
                row.client_id = sale.client_id.clone();
                row.date = sale.date;
                row.total_amount = sale.total_amount;
                row.total_amount_ttc = sale.total_amount_ttc;
                row.is_invoiced = sale.is_invoiced;
                row.invoice_id = clone_opt_string(&sale.invoice_id);
                row.notes = clone_opt_string(&sale.notes);
                row.payment_method = clone_opt_string(&sale.payment_method);
                row.transportation_fee = sale.transportation_fee;
                row.tax_rate = sale.tax_rate;
                row.updated_at = Some(now);
                row.is_paid = is_paid;
                row.paid_at = sale.paid_at;
                row.items = fresh_items;
            }
            j = j + 1;
        }
        refresh_invoices(&mut self.invoices, &self.payments, &self.sales, now);
        let returned = clone_sale(&self.sales[first]);
        proof {
            assert(pre[first as int].id@ == id@);
        }
        Ok(returned)
    }
}


/// Whether some sale row with this id is soft-deleted.
pub open spec fn has_deleted_sale_row(ss: Seq<Sale>, sale_id: Seq<char>) -> bool {
    exists|j: int| 0 <= j < ss.len() && ss[j].id@ == sale_id && ss[j].is_deleted
}

/// Whether every member sale of the invoice is free of soft-deleted
/// rows, judged by the link table; an invoice with no remaining links
/// counts as all-live.
pub open spec fn no_deleted_member(ls: Seq<InvoiceSale>, ss: Seq<Sale>, invoice_id: Seq<char>) -> bool {
    forall|l: int|
        0 <= l < ls.len() && ls[l].invoice_id@ == invoice_id ==> !has_deleted_sale_row(
            ss,
            ls[l].sale_id@,
        )
}

/// The invoice table after the cascade of deleting one sale: an
/// invoice that was linked to the sale and is left without a live
/// member is soft-deleted (I6); every other live invoice is
/// reconciled against the payment table as it stands after the
/// sale's payments were soft-deleted.
pub open spec fn sale_delete_invoices(
    vs: Seq<Invoice>,
    ls_old: Seq<InvoiceSale>,
    ps_old: Seq<Payment>,
    ss_old: Seq<Sale>,
    sale_id: Seq<char>,
    t: u64,
) -> Seq<Invoice> {
    let ls_new = ls_old.filter(keeps_other_sales(sale_id));
    let ss_new = sales_with_deleted(ss_old, sale_id, t);
    let ps_new = sale_payments_deleted(ps_old, sale_id, t);
    Seq::new(
        vs.len(),
        |i: int|
            if linked(ls_old, vs[i].id@, sale_id) && !has_live_member(ls_new, ss_new, vs[i].id@) {
                invoice_deleted(vs[i], t)
            } else if !vs[i].is_deleted {
                reconciled_invoice(vs[i], payment_sum(ps_new, ss_new, vs[i].id@), t)
            } else {
                vs[i]
            },
    )
}

/// The invoice table after the cascade of restoring one sale: an
/// invoice that the sale belongs to - through a remaining link row or
/// through the sale's own back-reference - is restored when none of
/// its member sales is left soft-deleted (I5), and reconciled; every
/// other live invoice is reconciled as well.
pub open spec fn sale_restore_invoices(
    vs: Seq<Invoice>,
    ls: Seq<InvoiceSale>,
    ps_old: Seq<Payment>,
    ss_old: Seq<Sale>,
    sale_id: Seq<char>,
    t: u64,
) -> Seq<Invoice> {
    let ss_new = sales_with_restored(ss_old, sale_id);
    let ps_new = sale_payments_restored(ps_old, sale_id);
    Seq::new(
        vs.len(),
        |i: int|
            if (linked(ls, vs[i].id@, sale_id) || sale_links_invoice(ss_new, sale_id, vs[i].id@))
                && no_deleted_member(ls, ss_new, vs[i].id@) {
                reconciled_invoice(
                    invoice_restored(vs[i]),
                    payment_sum(ps_new, ss_new, vs[i].id@),
                    t,
                )
            } else if !vs[i].is_deleted {
                reconciled_invoice(vs[i], payment_sum(ps_new, ss_new, vs[i].id@), t)
            } else {
                vs[i]
            },
    )
}

/// The sale table after re-pointing every row with this id at an
/// invoice (or detaching it, when no invoice is given).
pub open spec fn sales_with_invoice_ref(
    ss: Seq<Sale>,
    sale_id: Seq<char>,
    invoice_ref: Option<String>,
    invoiced: bool,
) -> Seq<Sale> {
    Seq::new(
        ss.len(),
        |i: int|
            if ss[i].id@ == sale_id {
                Sale { is_invoiced: invoiced, invoice_id: invoice_ref, ..ss[i] }
            } else {
                ss[i]
            },
    )
}

fn clone_links(ls: &Vec<InvoiceSale>) -> (r: Vec<InvoiceSale>)
    ensures
        r@ == ls@,
{
    let n: usize = ls.len();
    let mut out: Vec<InvoiceSale> = Vec::new();
    let mut i: usize = 0;
    while i < n
        invariant
            i <= n,
            n == ls@.len(),
            out@ == ls@.take(i as int),
        decreases n - i,
    {
        out.push(
            InvoiceSale {
                invoice_id: ls[i].invoice_id.clone(),
                sale_id: ls[i].sale_id.clone(),
                created_at: ls[i].created_at,
            },
        );
        proof {
            assert(out@ =~= ls@.take(i + 1));
        }
        i = i + 1;
    }
    proof {
        assert(ls@.take(n as int) == ls@);
    }
    out
}

/// Whether the link table holds a membership row for this invoice
/// and sale.
fn links_contain(ls: &Vec<InvoiceSale>, invoice_id: &String, sale_id: &String) -> (r: bool)
    ensures
        r == linked(ls@, invoice_id@, sale_id@),
{
    let n: usize = ls.len();
    let mut i: usize = 0;
    while i < n
        invariant
            i <= n,
            n == ls@.len(),
            forall|l: int|
                0 <= l < i ==> !(ls@[l].invoice_id@ == invoice_id@ && ls@[l].sale_id@ == sale_id@),
        decreases n - i,
    {
        if ls[i].invoice_id == *invoice_id && ls[i].sale_id == *sale_id {
            return true;
        }
        i = i + 1;
    }
    false
}

/// Whether the invoice still has a member sale that is not
/// soft-deleted.
fn live_member(ls: &Vec<InvoiceSale>, ss: &Vec<Sale>, invoice_id: &String) -> (r: bool)
    ensures
        r == has_live_member(ls@, ss@, invoice_id@),
{
    let n: usize = ls.len();
    let mut i: usize = 0;
    while i < n
        invariant
            i <= n,
            n == ls@.len(),
            forall|l: int|
                0 <= l < i ==> !(ls@[l].invoice_id@ == invoice_id@ && sale_live(
                    ss@,
                    ls@[l].sale_id@,
                )),
        decreases n - i,
    {
        if ls[i].invoice_id == *invoice_id {
            if sale_is_live(ss, &ls[i].sale_id) {
                return true;
            }
        }
        i = i + 1;
    }
    false
}

/// Whether some sale row with this id is soft-deleted.
fn deleted_sale_row(ss: &Vec<Sale>, sale_id: &String) -> (r: bool)
    ensures
        r == has_deleted_sale_row(ss@, sale_id@),
{
    let n: usize = ss.len();
    let mut i: usize = 0;
    while i < n
        invariant
            i <= n,
            n == ss@.len(),
            forall|j: int| 0 <= j < i ==> !(ss@[j].id@ == sale_id@ && ss@[j].is_deleted),
        decreases n - i,
    {
        if ss[i].id == *sale_id && ss[i].is_deleted {
            return true;
        }
        i = i + 1;
    }
    false
}

/// Whether none of the invoice's member sales is left soft-deleted.
fn members_all_live(ls: &Vec<InvoiceSale>, ss: &Vec<Sale>, invoice_id: &String) -> (r: bool)
    ensures
        r == no_deleted_member(ls@, ss@, invoice_id@),
{
    let n: usize = ls.len();
    let mut i: usize = 0;
    while i < n
        invariant
            i <= n,
            n == ls@.len(),
            forall|l: int|
                0 <= l < i && ls@[l].invoice_id@ == invoice_id@ ==> !has_deleted_sale_row(
                    ss@,
                    ls@[l].sale_id@,
                ),
        decreases n - i,
    {
        if ls[i].invoice_id == *invoice_id {
            if deleted_sale_row(ss, &ls[i].sale_id) {
                return false;
            }
        }
        i = i + 1;
    }
    true
}

/// Whether some sale row with this id carries the invoice as its
/// back-reference.
fn sale_backref(ss: &Vec<Sale>, sale_id: &String, invoice_id: &String) -> (r: bool)
    ensures
        r == sale_links_invoice(ss@, sale_id@, invoice_id@),
{
    let n: usize = ss.len();
    let mut i: usize = 0;
    while i < n
        invariant
            i <= n,
            n == ss@.len(),
            forall|j: int|
                0 <= j < i ==> !(ss@[j].id@ == sale_id@ && opt_id_is(
                    ss@[j].invoice_id,
                    invoice_id@,
                )),
        decreases n - i,
    {
        if ss[i].id == *sale_id {
            let carries: bool = match &ss[i].invoice_id {
                Some(v) => *v == *invoice_id,
                None => false,
            };
            if carries {
                return true;
            }
        }
        i = i + 1;
    }
    false
}

/// Whether some invoice row with this id is marked paid.
fn invoice_is_paid(vs: &Vec<Invoice>, invoice_id: &String) -> (r: bool)
    ensures
        r == invoice_paid(vs@, invoice_id@),
{
    let n: usize = vs.len();
    let mut i: usize = 0;
    while i < n
        invariant
            i <= n,
            n == vs@.len(),
            forall|j: int| 0 <= j < i ==> !(vs@[j].id@ == invoice_id@ && vs@[j].is_paid),
        decreases n - i,
    {
        if vs[i].id == *invoice_id && vs[i].is_paid {
            return true;
        }
        i = i + 1;
    }
    false
}

/// Finds a paid invoice linked to this sale, if any: the witness
/// that blocks the sale's deletion.
fn find_paid_linked_invoice(ls: &Vec<InvoiceSale>, vs: &Vec<Invoice>, sale_id: &String) -> (r:
    Option<String>)
    ensures
        match r {
            Some(w) => exists|l: int|
                0 <= l < ls@.len() && ls@[l].sale_id@ == sale_id@ && ls@[l].invoice_id@ == w@
                    && invoice_paid(vs@, w@),
            None => !guard_blocks(ls@, vs@, sale_id@),
        },
{
    let n: usize = ls.len();
    let mut i: usize = 0;
    while i < n
        invariant
            i <= n,
            n == ls@.len(),
            forall|l: int|
                0 <= l < i ==> !(ls@[l].sale_id@ == sale_id@ && invoice_paid(
                    vs@,
                    ls@[l].invoice_id@,
                )),
        decreases n - i,
    {
        if ls[i].sale_id == *sale_id {
            if invoice_is_paid(vs, &ls[i].invoice_id) {
                let w: String = ls[i].invoice_id.clone();
                return Some(w);
            }
        }
        i = i + 1;
    }
    None
}


impl Ledger {
    /// Soft-deletes a sale with its full cascade: the sale's
    /// payments are soft-deleted with it, its membership rows leave
    /// the link table, an invoice left without a live member is
    /// soft-deleted (I6), and every surviving live invoice is
    /// reconciled. Deletion is rejected outright - nothing written -
    /// when any linked invoice is paid (I3), reporting that
    /// invoice's id; an unknown key is reported as missing.
    pub fn delete_sale_at(&mut self, id: &String, now: u64) -> (r: Result<(), Error>)
        requires
            old(self).audit_log@.len() < u64::MAX,
        ensures
            delete_sale_post(*old(self), *final(self), id@, r, now),

    {
        if find_sale(&self.sales, id).is_none() {
            return Err(Error::NotFound);
        }
        match find_paid_linked_invoice(&self.invoice_sales, &self.invoices, id) {
            Some(w) => {
                return Err(Error::Conflict(w));
            },
            None => {},
        }
        let old_links: Vec<InvoiceSale> = clone_links(&self.invoice_sales);
        mark_sales_deleted(&mut self.sales, id, now);
        mark_sale_payments_deleted(&mut self.payments, id, now);
        remove_sale_links(&mut self.invoice_sales, id);
        proof {
            assert(self.sales@ =~= sales_with_deleted(old(self).sales@, id@, now));
            assert(self.payments@ =~= sale_payments_deleted(old(self).payments@, id@, now));
        }
        let ghost pre = self.invoices@;
        let n: usize = self.invoices.len();
        let mut i: usize = 0;
        while i < n
            invariant
                i <= n,
                n == pre.len(),
                self.invoices@.len() == pre.len(),
                pre == old(self).invoices@,
                old_links@ == old(self).invoice_sales@,
                self.clients@ == old(self).clients@,
                self.audit_log@ == old(self).audit_log@,
                self.sales@ == sales_with_deleted(old(self).sales@, id@, now),
                self.payments@ == sale_payments_deleted(old(self).payments@, id@, now),
                self.invoice_sales@ == old(self).invoice_sales@.filter(keeps_other_sales(id@)),
                forall|j: int| i <= j < n ==> self.invoices@[j] == pre[j],
                forall|j: int|
                    0 <= j < i ==> self.invoices@[j] == sale_delete_invoices(
                        pre,
                        old(self).invoice_sales@,
                        old(self).payments@,
                        old(self).sales@,
                        id@,
                        now,
                    )[j],
            decreases n - i,
        {
            let vid: String = self.invoices[i].id.clone();
            let was_linked: bool = links_contain(&old_links, &vid, id);
            if was_linked && !live_member(&self.invoice_sales, &self.sales, &vid) {
                let row = &mut self.invoices[i];
                row.is_deleted = true;
                row.deleted_at = Some(now);
            } else if !self.invoices[i].is_deleted {
                let sum: u128 = payment_total(&self.payments, &self.sales, &vid);
                let covered: bool = sum >= (self.invoices[i].total_amount_ttc as u128);
                let row = &mut self.invoices[i];
                if covered {
                    if !(row.is_paid && row.paid_at.is_some()) {
                        row.is_paid = true;
                        row.paid_at = Some(now);
                    }
                } else {
                    if row.is_paid || row.paid_at.is_some() {
                        row.is_paid = false;
                        row.paid_at = None;
                    }
                }
            }
            i = i + 1;
        }
        proof {
            assert(self.invoices@ =~= sale_delete_invoices(
                pre,
                old(self).invoice_sales@,
                old(self).payments@,
                old(self).sales@,
                id@,
                now,
            ));
        }
        append_audit(&mut self.audit_log, "soft_delete", "sale", id, "Sale soft-deleted", now);
        Ok(())
    }

    /// Restores a soft-deleted sale with its cascade: the sale's
    /// payments are restored with it, an invoice the sale belongs to
    /// is restored once none of its member sales is left soft-deleted
    /// (I5), and every live invoice is reconciled against the
    /// restored payments. An unknown key is reported as missing, with
    /// nothing written.
    pub fn restore_sale_at(&mut self, id: &String, now: u64) -> (r: Result<(), Error>)
        requires
            old(self).audit_log@.len() < u64::MAX,
        ensures
            restore_sale_post(*old(self), *final(self), id@, r, now),

    {
        if find_sale(&self.sales, id).is_none() {
            return Err(Error::NotFound);
        }
        mark_sales_restored(&mut self.sales, id);
        mark_sale_payments_restored(&mut self.payments, id);
        proof {
            assert(self.sales@ =~= sales_with_restored(old(self).sales@, id@));
            assert(self.payments@ =~= sale_payments_restored(old(self).payments@, id@));
        }
        let ghost pre = self.invoices@;
        let n: usize = self.invoices.len();
        let mut i: usize = 0;
        while i < n
            invariant
                i <= n,
                n == pre.len(),
                self.invoices@.len() == pre.len(),
                pre == old(self).invoices@,
                self.clients@ == old(self).clients@,
                self.audit_log@ == old(self).audit_log@,
                self.invoice_sales@ == old(self).invoice_sales@,
                self.sales@ == sales_with_restored(old(self).sales@, id@),
                self.payments@ == sale_payments_restored(old(self).payments@, id@),
                forall|j: int| i <= j < n ==> self.invoices@[j] == pre[j],
                forall|j: int|
                    0 <= j < i ==> self.invoices@[j] == sale_restore_invoices(
                        pre,
                        old(self).invoice_sales@,
                        old(self).payments@,
                        old(self).sales@,
                        id@,
                        now,
                    )[j],
            decreases n - i,
        {
            let vid: String = self.invoices[i].id.clone();
            let belongs: bool = links_contain(&self.invoice_sales, &vid, id) || sale_backref(
                &self.sales,
                id,
                &vid,
            );
            if belongs && members_all_live(&self.invoice_sales, &self.sales, &vid) {
                {
                    let row = &mut self.invoices[i];
                    row.is_deleted = false;
                    row.deleted_at = None;
                }
                let sum: u128 = payment_total(&self.payments, &self.sales, &vid);
                let covered: bool = sum >= (self.invoices[i].total_amount_ttc as u128);
                let row = &mut self.invoices[i];
                if covered {
                    if !(row.is_paid && row.paid_at.is_some()) {
                        row.is_paid = true;
                        row.paid_at = Some(now);
                    }
                } else {
                    if row.is_paid || row.paid_at.is_some() {
                        row.is_paid = false;
                        row.paid_at = None;
                    }
                }
            } else if !self.invoices[i].is_deleted {
                let sum: u128 = payment_total(&self.payments, &self.sales, &vid);
                let covered: bool = sum >= (self.invoices[i].total_amount_ttc as u128);
                let row = &mut self.invoices[i];
                if covered {
                    if !(row.is_paid && row.paid_at.is_some()) {
                        row.is_paid = true;
                        row.paid_at = Some(now);
                    }
                } else {
                    if row.is_paid || row.paid_at.is_some() {
                        row.is_paid = false;
                        row.paid_at = None;
                    }
                }
            }
            i = i + 1;
        }
        proof {
            assert(self.invoices@ =~= sale_restore_invoices(
                pre,
                old(self).invoice_sales@,
                old(self).payments@,
                old(self).sales@,
                id@,
                now,
            ));
        }
        append_audit(&mut self.audit_log, "restore", "sale", id, "Sale restored", now);
        Ok(())
    }
}


/// Copies the live sale rows out of the table, in storage order.
fn collect_live_sales(ss: &Vec<Sale>) -> (r: Vec<Sale>)
    ensures
        r@.len() == ss@.filter(is_live_sale()).len(),
        forall|k: int|
            0 <= k < r@.len() ==> same_sale(r@[k], ss@.filter(is_live_sale())[k]),
{
    let n: usize = ss.len();
    let mut out: Vec<Sale> = Vec::new();
    let mut i: usize = 0;
    while i < n
        invariant
            i <= n,
            n == ss@.len(),
            out@.len() == ss@.take(i as int).filter(is_live_sale()).len(),
            forall|k: int|
                0 <= k < out@.len() ==> same_sale(out@[k], ss@.take(i as int).filter(
                    is_live_sale(),
                )[k]),
        decreases n - i,
    {
        proof {
            assert(ss@.take(i + 1).drop_last() == ss@.take(i as int));
            assert(ss@.take(i + 1).last() == ss@[i as int]);
            reveal_with_fuel(Seq::filter, 2);
        }
        if !ss[i].is_deleted {
            out.push(clone_sale(&ss[i]));
        }
        i = i + 1;
    }
    proof {
        assert(ss@.take(n as int) == ss@);
    }
    out
}

/// Copies the soft-deleted sale rows out of the table, in storage
/// order.
fn collect_deleted_sales(ss: &Vec<Sale>) -> (r: Vec<Sale>)
    ensures
        r@.len() == ss@.filter(is_deleted_sale()).len(),
        forall|k: int|
            0 <= k < r@.len() ==> same_sale(r@[k], ss@.filter(is_deleted_sale())[k]),
{
    let n: usize = ss.len();
    let mut out: Vec<Sale> = Vec::new();
    let mut i: usize = 0;
    while i < n
        invariant
            i <= n,
            n == ss@.len(),
            out@.len() == ss@.take(i as int).filter(is_deleted_sale()).len(),
            forall|k: int|
                0 <= k < out@.len() ==> same_sale(out@[k], ss@.take(i as int).filter(
                    is_deleted_sale(),
                )[k]),
        decreases n - i,
    {
        proof {
            assert(ss@.take(i + 1).drop_last() == ss@.take(i as int));
            assert(ss@.take(i + 1).last() == ss@[i as int]);
            reveal_with_fuel(Seq::filter, 2);
        }
        if ss[i].is_deleted {
            out.push(clone_sale(&ss[i]));
        }
        i = i + 1;
    }
    proof {
        assert(ss@.take(n as int) == ss@);
    }
    out
}

/// The page window over a listing of the given length: the requested
/// page and size fall back to the first page of five rows, and the
/// window is clipped to the listing.
pub open spec fn page_window(len: int, page: Option<u32>, page_size: Option<u32>) -> (int, int) {
    let p = (match page {
        Some(v) => v,
        None => 1u32,
    }) as int;
    let size = (match page_size {
        Some(v) => v,
        None => 5u32,
    }) as int;
    let off = (p - 1) * size;
    let lo = if off < len {
        off
    } else {
        len
    };
    let hi = if off + size < len {
        off + size
    } else {
        len
    };
    (lo, hi)
}

impl Ledger {
    /// Re-points every row of a sale at an invoice and marks it
    /// invoiced, then reconciles every live invoice, since the
    /// re-pointed sale shifts which invoice its payments count
    /// towards. An unknown sale key is reported as missing.
    pub fn mark_sale_invoiced_at(&mut self, sale_id: &String, invoice_id: &String, now: u64) -> (r:
        Result<(), Error>)
        ensures
            mark_sale_invoiced_post(*old(self), *final(self), sale_id@, *invoice_id, r, now),

    {
        if find_sale(&self.sales, sale_id).is_none() {
            return Err(Error::NotFound);
        }
        let ghost pre = self.sales@;
        let n: usize = self.sales.len();
        let mut i: usize = 0;
        while i < n
            invariant
                i <= n,
                n == pre.len(),
                self.sales@.len() == pre.len(),
                pre == old(self).sales@,
                self.clients@ == old(self).clients@,
                self.invoices@ == old(self).invoices@,
                self.invoice_sales@ == old(self).invoice_sales@,
                self.payments@ == old(self).payments@,
                self.audit_log@ == old(self).audit_log@,
                forall|j: int| i <= j < n ==> self.sales@[j] == pre[j],
                forall|j: int|
                    0 <= j < i ==> self.sales@[j] == sales_with_invoice_ref(
                        pre,
                        sale_id@,
                        Some(*invoice_id),
                        true,
                    )[j],
            decreases n - i,
        {
            if self.sales[i].id == *sale_id {
                let fresh_ref: String = invoice_id.clone();
                let row = &mut self.sales[i];
                row.is_invoiced = true;
                row.invoice_id = Some(fresh_ref);
            }
            i = i + 1;
        }
        proof {
            assert(self.sales@ =~= sales_with_invoice_ref(pre, sale_id@, Some(*invoice_id), true));
        }
        refresh_invoices(&mut self.invoices, &self.payments, &self.sales, now);
        Ok(())
    }

    /// Detaches every row of a sale from its invoice, clearing the
    /// invoiced mark, then reconciles every live invoice. An unknown
    /// sale key is reported as missing.
    pub fn unmark_sale_invoiced_at(&mut self, sale_id: &String, now: u64) -> (r: Result<(), Error>)
        ensures
            unmark_sale_invoiced_post(*old(self), *final(self), sale_id@, r, now),

    {
        if find_sale(&self.sales, sale_id).is_none() {
            return Err(Error::NotFound);
        }
        let ghost pre = self.sales@;
        let n: usize = self.sales.len();
        let mut i: usize = 0;
        while i < n
            invariant
                i <= n,
                n == pre.len(),
                self.sales@.len() == pre.len(),
                pre == old(self).sales@,
                self.clients@ == old(self).clients@,
                self.invoices@ == old(self).invoices@,
                self.invoice_sales@ == old(self).invoice_sales@,
                self.payments@ == old(self).payments@,
                self.audit_log@ == old(self).audit_log@,
                forall|j: int| i <= j < n ==> self.sales@[j] == pre[j],
                forall|j: int|
                    0 <= j < i ==> self.sales@[j] == sales_with_invoice_ref(
                        pre,
                        sale_id@,
                        None::<String>,
                        false,
                    )[j],
            decreases n - i,
        {
            if self.sales[i].id == *sale_id {
                let row = &mut self.sales[i];
                row.is_invoiced = false;
                row.invoice_id = None;
            }
            i = i + 1;
        }
        proof {
            assert(self.sales@ =~= sales_with_invoice_ref(pre, sale_id@, None::<String>, false));
        }
        refresh_invoices(&mut self.invoices, &self.payments, &self.sales, now);
        Ok(())
    }

    /// Reads one live sale with its items; a soft-deleted or unknown
    /// sale reads as absent.
    pub fn get_sale_by_id(&self, id: &String) -> (r: Option<Sale>)
        ensures
            match r {
                Some(s) => exists|i: int|
                    0 <= i < self.sales@.len() && self.sales@[i].id@ == id@
                        && !self.sales@[i].is_deleted && (forall|j: int|
                        0 <= j < i ==> !(self.sales@[j].id@ == id@ && !self.sales@[j].is_deleted))
                        && same_sale(s, self.sales@[i]),
                None => !sale_live(self.sales@, id@),
            },
    {
        let n: usize = self.sales.len();
        let mut i: usize = 0;
        while i < n
            invariant
                i <= n,
                n == self.sales@.len(),
                forall|j: int|
                    0 <= j < i ==> !(self.sales@[j].id@ == id@ && !self.sales@[j].is_deleted),
            decreases n - i,
        {
            if self.sales[i].id == *id && !self.sales[i].is_deleted {
                return Some(clone_sale(&self.sales[i]));
            }
            i = i + 1;
        }
        None
    }

    /// Reads one page of the live sales, in storage order, together
    /// with the live count. A missing page or size falls back to the
    /// first page of five rows; the window is clipped to the listing.
    pub fn get_sales(&self, page: Option<u32>, page_size: Option<u32>) -> (r: PaginatedSalesResult)
        requires
            match page {
                Some(p) => p >= 1,
                None => true,
            },
        ensures
            r.total == self.sales@.filter(is_live_sale()).len(),
            ({
                let live = self.sales@.filter(is_live_sale());
                let (lo, hi) = page_window(live.len() as int, page, page_size);
                &&& r.rows@.len() == hi - lo
                &&& forall|k: int| 0 <= k < r.rows@.len() ==> same_sale(r.rows@[k], live[lo + k])
            }),
    {
        let live: Vec<Sale> = collect_live_sales(&self.sales);
        let p64: u64 = match page {
            Some(v) => v as u64,
            None => 1u64,
        };
        let size64: u64 = match page_size {
            Some(v) => v as u64,
            None => 5u64,
        };
        assert((p64 - 1) as int * (size64 as int) <= 0xFFFF_FFFE_0000_0001) by (nonlinear_arith)
            requires
                1 <= p64 <= u32::MAX,
                size64 <= u32::MAX,
        ;
        let off: u64 = (p64 - 1) * size64;
        let len: u64 = live.len() as u64;
        let lo: u64 = if off < len {
            off
        } else {
            len
        };
        let hi: u64 = if off + size64 < len {
            off + size64
        } else {
            len
        };
        let mut rows: Vec<Sale> = Vec::new();
        let mut k: u64 = lo;
        while k < hi
            invariant
                lo <= k <= hi,
                hi <= live@.len(),
                rows@.len() == k - lo,
                forall|m: int| 0 <= m < rows@.len() ==> same_sale(rows@[m], live@[lo + m]),
                forall|m: int|
                    0 <= m < live@.len() ==> same_sale(
                        live@[m],
                        self.sales@.filter(is_live_sale())[m],
                    ),
                live@.len() == self.sales@.filter(is_live_sale()).len(),
            decreases hi - k,
        {
            rows.push(clone_sale(&live[k as usize]));
            k = k + 1;
        }
        PaginatedSalesResult { rows, total: len }
    }

    /// Lists the soft-deleted sales with their items, in storage
    /// order.
    pub fn get_deleted_sales(&self) -> (r: Vec<Sale>)
        ensures
            r@.len() == self.sales@.filter(is_deleted_sale()).len(),
            forall|k: int|
                0 <= k < r@.len() ==> same_sale(r@[k], self.sales@.filter(is_deleted_sale())[k]),
    {
        collect_deleted_sales(&self.sales)
    }
}


impl Ledger {
    /// Records a new sale under a freshly drawn key at the current
    /// time. The drawn key and clock reading are outside influences,
    /// so the contract holds for some key and time; the exact
    /// transition is stated over the keyed operation.
    pub fn create_sale(&mut self, sale: CreateSaleRequest) -> (r: Result<Sale, Error>)
        ensures
            exists|key: Seq<char>, t: u64|
                #[trigger] create_sale_post(*old(self), *final(self), sale, key, r, t),
    {
        let id: String = crate::idgen::new_key();
        let now: u64 = crate::clock::now_millis();
        let ghost key = id@;
        let r = self.create_sale_with(sale, id, now);
        proof {
            assert(create_sale_post(*old(self), *self, sale, key, r, now));
        }
        r
    }

    /// Rewrites a sale from a full request at the current time; the
    /// clock reading is an outside influence, so the contract holds
    /// for some time.
    pub fn update_sale(&mut self, id: &String, sale: CreateSaleRequest) -> (r: Result<Sale, Error>)
        ensures
            exists|t: u64| #[trigger] update_sale_post(*old(self), *final(self), id@, sale, r, t),
    {
        let now: u64 = crate::clock::now_millis();
        let r = self.update_sale_with(id, sale, now);
        proof {
            assert(update_sale_post(*old(self), *self, id@, sale, r, now));
        }
        r
    }

    /// Soft-deletes a sale with its cascade at the current time; the
    /// clock reading is an outside influence, so the contract holds
    /// for some time.
    pub fn delete_sale(&mut self, id: &String) -> (r: Result<(), Error>)
        requires
            old(self).audit_log@.len() < u64::MAX,
        ensures
            exists|t: u64| #[trigger] delete_sale_post(*old(self), *final(self), id@, r, t),
    {
        let now: u64 = crate::clock::now_millis();
        let r = self.delete_sale_at(id, now);
        proof {
            assert(delete_sale_post(*old(self), *self, id@, r, now));
        }
        r
    }

    /// Restores a soft-deleted sale with its cascade at the current
    /// time; the clock reading is an outside influence, so the
    /// contract holds for some time.
    pub fn restore_sale(&mut self, id: &String) -> (r: Result<(), Error>)
        requires
            old(self).audit_log@.len() < u64::MAX,
        ensures
            exists|t: u64| #[trigger] restore_sale_post(*old(self), *final(self), id@, r, t),
    {
        let now: u64 = crate::clock::now_millis();
        let r = self.restore_sale_at(id, now);
        proof {
            assert(restore_sale_post(*old(self), *self, id@, r, now));
        }
        r
    }

    /// Re-points a sale at an invoice at the current time; the clock
    /// reading is an outside influence, so the contract holds for
    /// some time.
    pub fn mark_sale_invoiced(&mut self, sale_id: &String, invoice_id: &String) -> (r: Result<
        (),
        Error,
    >)
        ensures
            exists|t: u64|
                #[trigger] mark_sale_invoiced_post(
                    *old(self),
                    *final(self),
                    sale_id@,
                    *invoice_id,
                    r,
                    t,
                ),
    {
        let now: u64 = crate::clock::now_millis();
        let r = self.mark_sale_invoiced_at(sale_id, invoice_id, now);
        proof {
            assert(mark_sale_invoiced_post(*old(self), *self, sale_id@, *invoice_id, r, now));
        }
        r
    }

    /// Detaches a sale from its invoice at the current time; the
    /// clock reading is an outside influence, so the contract holds
    /// for some time.
    pub fn unmark_sale_invoiced(&mut self, sale_id: &String) -> (r: Result<(), Error>)
        ensures
            exists|t: u64|
                #[trigger] unmark_sale_invoiced_post(*old(self), *final(self), sale_id@, r, t),
    {
        let now: u64 = crate::clock::now_millis();
        let r = self.unmark_sale_invoiced_at(sale_id, now);
        proof {
            assert(unmark_sale_invoiced_post(*old(self), *self, sale_id@, r, now));
        }
        r
    }
}

} // verus!
