use vstd::prelude::*;

use crate::ledger::{append_audit, audit_appended, find_invoice, has_invoice, invoice_deleted,
    invoice_restored, opt_id_is, Ledger};
use crate::model::{CreateInvoiceRequest, Error, Invoice, InvoiceSale,
    PaginatedInvoicesResult, Payment, Sale};
use crate::reconcile::{refresh_invoices, refreshed_invoices};
use crate::sales::page_window;

verus! {

/// The two ways an invoice can be deleted: physically, which is
/// irreversible and offered only to draft invoices that never
/// received money, or by the soft-delete mark, which keeps history.
#[derive(Clone, Copy, Debug, PartialEq, Eq, Structural)]
pub enum DeletionMode {
    HardDelete,
    SoftDelete,
}

/// An invoice row that is not soft-deleted.
pub open spec fn is_live_invoice() -> spec_fn(Invoice) -> bool {
    |v: Invoice| !v.is_deleted
}

/// An invoice row that is soft-deleted.
pub open spec fn is_deleted_invoice() -> spec_fn(Invoice) -> bool {
    |v: Invoice| v.is_deleted
}

/// The invoice rows that do not carry the given id.
pub open spec fn keeps_other_invoice_rows(id: Seq<char>) -> spec_fn(Invoice) -> bool {
    |v: Invoice| v.id@ != id
}

/// The membership rows that do not belong to the given invoice.
pub open spec fn keeps_other_invoices(id: Seq<char>) -> spec_fn(InvoiceSale) -> bool {
    |l: InvoiceSale| l.invoice_id@ != id
}

/// Whether some payment row that is not soft-deleted references the
/// invoice directly.
pub open spec fn has_live_direct_payment(ps: Seq<Payment>, invoice_id: Seq<char>) -> bool {
    exists|i: int| 0 <= i < ps.len() && !ps[i].is_deleted && opt_id_is(ps[i].invoice_id, invoice_id)
}

/// Whether some invoice row with this id is marked paid.
pub open spec fn some_row_paid(vs: Seq<Invoice>, id: Seq<char>) -> bool {
    crate::sales::invoice_paid(vs, id)
}

/// An invoice is eligible for physical deletion only when it is
/// unpaid and no live payment references it: a draft that never
/// received money (I3).
pub open spec fn hard_delete_eligible(vs: Seq<Invoice>, ps: Seq<Payment>, id: Seq<char>) -> bool {
    !some_row_paid(vs, id) && !has_live_direct_payment(ps, id)
}

/// The sale table after detaching every row that points at this
/// invoice, leaving the sales re-invoiceable.
pub open spec fn sales_detached(ss: Seq<Sale>, invoice_id: Seq<char>) -> Seq<Sale> {
    Seq::new(
        ss.len(),
        |i: int|
            if opt_id_is(ss[i].invoice_id, invoice_id) {
                Sale { is_invoiced: false, invoice_id: None, ..ss[i] }
            } else {
                ss[i]
            },
    )
}

/// The invoice table after soft-deleting every row with this id.
pub open spec fn invoices_with_deleted(vs: Seq<Invoice>, id: Seq<char>, t: u64) -> Seq<Invoice> {
    Seq::new(
        vs.len(),
        |i: int|
            if vs[i].id@ == id {
                invoice_deleted(vs[i], t)
            } else {
                vs[i]
            },
    )
}

/// The invoice table after clearing soft-delete on every row with
/// this id.
pub open spec fn invoices_with_restored(vs: Seq<Invoice>, id: Seq<char>) -> Seq<Invoice> {
    Seq::new(
        vs.len(),
        |i: int|
            if vs[i].id@ == id {
                invoice_restored(vs[i])
            } else {
                vs[i]
            },
    )
}

/// The invoice table after writing a new tax-inclusive total on
/// every row with this id.
pub open spec fn invoices_with_total_ttc(vs: Seq<Invoice>, id: Seq<char>, ttc: u64, t: u64) -> Seq<
    Invoice,
> {
    Seq::new(
        vs.len(),
        |i: int|
            if vs[i].id@ == id {
                Invoice { total_amount_ttc: ttc, updated_at: Some(t), ..vs[i] }
            } else {
                vs[i]
            },
    )
}

pub fn clone_invoice(v: &Invoice) -> (r: Invoice)
    ensures
        r == *v,
{
    Invoice {
        id: v.id.clone(),
        invoice_number: v.invoice_number.clone(),
        client_id: v.client_id.clone(),
        date: v.date,
        due_date: v.due_date,
        total_amount_ht: v.total_amount_ht,
        total_amount_ttc: v.total_amount_ttc,
        is_paid: v.is_paid,
        paid_at: v.paid_at,
        is_deleted: v.is_deleted,
        deleted_at: v.deleted_at,
        created_at: v.created_at,
        updated_at: v.updated_at,
    }
}

/// Whether some live payment row references the invoice directly.
fn live_direct_payment(ps: &Vec<Payment>, invoice_id: &String) -> (r: bool)
    ensures
        r == has_live_direct_payment(ps@, invoice_id@),
{
    let n: usize = ps.len();
    let mut i: usize = 0;
    while i < n
        invariant
            i <= n,
            n == ps@.len(),
            forall|j: int|
                0 <= j < i ==> !(!ps@[j].is_deleted && opt_id_is(ps@[j].invoice_id, invoice_id@)),
        decreases n - i,
    {
        if !ps[i].is_deleted {
            let direct: bool = match &ps[i].invoice_id {
                Some(v) => *v == *invoice_id,
                None => false,
            };
            if direct {
                return true;
            }
        }
        i = i + 1;
    }
    false
}

/// Whether some invoice row with this id is marked paid.
fn paid_row(vs: &Vec<Invoice>, id: &String) -> (r: bool)
    ensures
        r == some_row_paid(vs@, id@),
{
    let n: usize = vs.len();
    let mut i: usize = 0;
    while i < n
        invariant
            i <= n,
            n == vs@.len(),
            forall|j: int| 0 <= j < i ==> !(vs@[j].id@ == id@ && vs@[j].is_paid),
        decreases n - i,
    {
        if vs[i].id == *id && vs[i].is_paid {
            return true;
        }
        i = i + 1;
    }
    false
}

/// The full effect of recording one invoice under a given key and
/// timestamp: the row starts unpaid, the listed sales are marked and
/// linked, their payments re-pointed, and a closing reconciliation
/// pass settles the fresh status; or the refusal of a taken key,
/// with nothing written.
pub open spec fn create_invoice_post(
    pre: Ledger,
    post: Ledger,
    invoice: CreateInvoiceRequest,
    key: String,
    r: Result<Invoice, Error>,
    now: u64,
) -> bool {
    &&& post.clients@ == pre.clients@
    &&& post.audit_log@ == pre.audit_log@
    &&& match r {
                Ok(row) => {
                    &&& !has_invoice(pre.invoices@, key@)
                    &&& invoice_row_created(row, invoice, key@, now)
                    &&& post.sales@ == sales_marked_for_invoice(
                        pre.sales@,
                        invoice.sales_ids@,
                        key,
                    )
                    &&& post.invoice_sales@ == links_appended(
                        pre.invoice_sales@,
                        invoice.sales_ids@,
                        key,
                        now,
                    )
                    &&& post.payments@ == payments_repointed(
                        pre.payments@,
                        invoice.sales_ids@,
                        key,
                    )
                    &&& post.invoices@ == refreshed_invoices(
                        pre.invoices@.push(row),
                        post.payments@,
                        post.sales@,
                        now,
                    )
                },
                Err(e) => {
                    &&& e == Error::Storage
                    &&& has_invoice(pre.invoices@, key@)
                    &&& post.sales@ == pre.sales@
                    &&& post.invoices@ == pre.invoices@
                    &&& post.invoice_sales@ == pre.invoice_sales@
                    &&& post.payments@ == pre.payments@
                },
            }
}

/// The full effect of deleting one invoice on the path the guard
/// chooses: physical removal for a draft with no live payment, the
/// soft-delete mark otherwise, either way detaching its sales,
/// reconciling and recording an audit entry; or the report of a
/// missing key, with nothing written.
pub open spec fn delete_invoice_post(
    pre: Ledger,
    post: Ledger,
    id: Seq<char>,
    r: Result<(), Error>,
    now: u64,
) -> bool {
    &&& post.clients@ == pre.clients@
    &&& post.payments@ == pre.payments@
    &&& match r {
                Ok(u) => {
                    &&& has_invoice(pre.invoices@, id)
                    &&& post.sales@ == sales_detached(pre.sales@, id)
                    &&& (if hard_delete_eligible(pre.invoices@, pre.payments@, id) {
                        &&& post.invoice_sales@ == pre.invoice_sales@.filter(
                            keeps_other_invoices(id),
                        )
                        &&& post.invoices@ == refreshed_invoices(
                            pre.invoices@.filter(keeps_other_invoice_rows(id)),
                            pre.payments@,
                            post.sales@,
                            now,
                        )
                        &&& audit_appended(
                            pre.audit_log@,
                            post.audit_log@,
                            "hard_delete"@,
                            "invoice"@,
                            id,
                            now,
                            "Invoice hard-deleted (draft, no payments)"@,
                        )
                    } else {
                        &&& post.invoice_sales@ == pre.invoice_sales@
                        &&& post.invoices@ == refreshed_invoices(
                            invoices_with_deleted(pre.invoices@, id, now),
                            pre.payments@,
                            post.sales@,
                            now,
                        )
                        &&& audit_appended(
                            pre.audit_log@,
                            post.audit_log@,
                            "soft_delete"@,
                            "invoice"@,
                            id,
                            now,
                            "Invoice soft-deleted"@,
                        )
                    })
                },
                Err(e) => {
                    &&& e == Error::NotFound
                    &&& !has_invoice(pre.invoices@, id)
                    &&& post.sales@ == pre.sales@
                    &&& post.invoices@ == pre.invoices@
                    &&& post.invoice_sales@ == pre.invoice_sales@
                    &&& post.audit_log@ == pre.audit_log@
                },
            }
}

/// The full effect of restoring one soft-deleted invoice, with the
/// closing reconciliation pass and the audit entry; or the report of
/// a missing key, with nothing written.
pub open spec fn restore_invoice_post(
    pre: Ledger,
    post: Ledger,
    id: Seq<char>,
    r: Result<(), Error>,
    now: u64,
) -> bool {
    &&& post.clients@ == pre.clients@
    &&& post.sales@ == pre.sales@
    &&& post.payments@ == pre.payments@
    &&& post.invoice_sales@ == pre.invoice_sales@
    &&& match r {
                Ok(u) => {
                    &&& has_invoice(pre.invoices@, id)
                    &&& post.invoices@ == refreshed_invoices(
                        invoices_with_restored(pre.invoices@, id),
                        pre.payments@,
                        pre.sales@,
                        now,
                    )
                    &&& audit_appended(
                        pre.audit_log@,
                        post.audit_log@,
                        "restore"@,
                        "invoice"@,
                        id,
                        now,
                        "Invoice restored"@,
                    )
                },
                Err(e) => {
                    &&& e == Error::NotFound
                    &&& !has_invoice(pre.invoices@, id)
                    &&& post.invoices@ == pre.invoices@
                    &&& post.audit_log@ == pre.audit_log@
                },
            }
}

/// The full effect of editing one invoice's tax-inclusive total,
/// with the closing reconciliation pass; or the report of a missing
/// key, with nothing written.
pub open spec fn set_invoice_total_ttc_post(
    pre: Ledger,
    post: Ledger,
    id: Seq<char>,
    ttc: u64,
    r: Result<(), Error>,
    now: u64,
) -> bool {
    &&& post.clients@ == pre.clients@
    &&& post.sales@ == pre.sales@
    &&& post.payments@ == pre.payments@
    &&& post.invoice_sales@ == pre.invoice_sales@
    &&& post.audit_log@ == pre.audit_log@
    &&& match r {
                Ok(u) => {
                    &&& has_invoice(pre.invoices@, id)
                    &&& post.invoices@ == refreshed_invoices(
                        invoices_with_total_ttc(pre.invoices@, id, ttc, now),
                        pre.payments@,
                        pre.sales@,
                        now,
                    )
                },
                Err(e) => {
                    &&& e == Error::NotFound
                    &&& !has_invoice(pre.invoices@, id)
                    &&& post.invoices@ == pre.invoices@
                },
            }
}

impl Ledger {
    /// Chooses how an invoice may be deleted (I3): physically only
    /// when it is unpaid and carries no live payment, by soft-delete
    /// otherwise. An unknown id is reported as missing.
    pub fn choose_deletion_mode(&self, invoice_id: &String) -> (r: Result<DeletionMode, Error>)
        ensures
            match r {
                Ok(m) => has_invoice(self.invoices@, invoice_id@) && m == (if hard_delete_eligible(
                    self.invoices@,
                    self.payments@,
                    invoice_id@,
                ) {
                    DeletionMode::HardDelete
                } else {
                    DeletionMode::SoftDelete
                }),
                Err(e) => e == Error::NotFound && !has_invoice(self.invoices@, invoice_id@),
            },
    {
        if find_invoice(&self.invoices, invoice_id).is_none() {
            return Err(Error::NotFound);
        }
        if !paid_row(&self.invoices, invoice_id) && !live_direct_payment(
            &self.payments,
            invoice_id,
        ) {
            Ok(DeletionMode::HardDelete)
        } else {
            Ok(DeletionMode::SoftDelete)
        }
    }

    /// Clears the soft-delete mark on an invoice and reconciles every
    /// live invoice, so the restored row's paid status is fresh at
    /// once. An unknown id is reported as missing.
    pub fn restore_invoice_at(&mut self, id: &String, now: u64) -> (r: Result<(), Error>)
        requires
            old(self).audit_log@.len() < u64::MAX,
        ensures
            restore_invoice_post(*old(self), *final(self), id@, r, now),

    {
        if find_invoice(&self.invoices, id).is_none() {
            return Err(Error::NotFound);
        }
        let ghost pre = self.invoices@;
        let n: usize = self.invoices.len();
        let mut i: usize = 0;
        while i < n
            invariant
                i <= n,
                n == pre.len(),
                self.invoices@.len() == pre.len(),
                pre == old(self).invoices@,
                self.clients@ == old(self).clients@,
                self.sales@ == old(self).sales@,
                self.payments@ == old(self).payments@,
                self.invoice_sales@ == old(self).invoice_sales@,
                self.audit_log@ == old(self).audit_log@,
                forall|j: int| i <= j < n ==> self.invoices@[j] == pre[j],
                forall|j: int|
                    0 <= j < i ==> self.invoices@[j] == invoices_with_restored(pre, id@)[j],
            decreases n - i,
        {
            if self.invoices[i].id == *id {
                let row = &mut self.invoices[i];
                row.is_deleted = false;
                row.deleted_at = None;
            }
            i = i + 1;
        }
        proof {
            assert(self.invoices@ =~= invoices_with_restored(pre, id@));
        }
        refresh_invoices(&mut self.invoices, &self.payments, &self.sales, now);
        append_audit(&mut self.audit_log, "restore", "invoice", id, "Invoice restored", now);
        Ok(())
    }

    /// Writes a new tax-inclusive total on an invoice and reconciles
    /// every live invoice: raising the total above the payments
    /// reverts the invoice to unpaid, lowering it under them marks it
    /// paid. An unknown id is reported as missing.
    pub fn set_invoice_total_ttc_at(&mut self, id: &String, ttc: u64, now: u64) -> (r: Result<
        (),
        Error,
    >)
        ensures
            set_invoice_total_ttc_post(*old(self), *final(self), id@, ttc, r, now),

    {
        if find_invoice(&self.invoices, id).is_none() {
            return Err(Error::NotFound);
        }
        let ghost pre = self.invoices@;
        let n: usize = self.invoices.len();
        let mut i: usize = 0;
        while i < n
            invariant
                i <= n,
                n == pre.len(),
                self.invoices@.len() == pre.len(),
                pre == old(self).invoices@,
                self.clients@ == old(self).clients@,
                self.sales@ == old(self).sales@,
                self.payments@ == old(self).payments@,
                self.invoice_sales@ == old(self).invoice_sales@,
                self.audit_log@ == old(self).audit_log@,
                forall|j: int| i <= j < n ==> self.invoices@[j] == pre[j],
                forall|j: int|
                    0 <= j < i ==> self.invoices@[j] == invoices_with_total_ttc(
                        pre,
                        id@,
                        ttc,
                        now,
                    )[j],
            decreases n - i,
        {
            if self.invoices[i].id == *id {
                let row = &mut self.invoices[i];
                row.total_amount_ttc = ttc;
                row.updated_at = Some(now);
            }
            i = i + 1;
        }
        proof {
            assert(self.invoices@ =~= invoices_with_total_ttc(pre, id@, ttc, now));
        }
        refresh_invoices(&mut self.invoices, &self.payments, &self.sales, now);
        Ok(())
    }

    /// Reads one page of the live invoices, in storage order,
    /// together with the live count. A missing page or size falls
    /// back to the first page of five rows; the window is clipped to
    /// the listing.
    pub fn get_invoices(&self, page: Option<u32>, page_size: Option<u32>) -> (r:
        PaginatedInvoicesResult)
        requires
            match page {
                Some(p) => p >= 1,
                None => true,
            },
        ensures
            r.total == self.invoices@.filter(is_live_invoice()).len(),
            ({
                let live = self.invoices@.filter(is_live_invoice());
                let (lo, hi) = page_window(live.len() as int, page, page_size);
                r.rows@ == live.subrange(lo, hi)
            }),
    {
        let n: usize = self.invoices.len();
        let mut live: Vec<Invoice> = Vec::new();
        let mut i: usize = 0;
        while i < n
            invariant
                i <= n,
                n == self.invoices@.len(),
                live@ == self.invoices@.take(i as int).filter(is_live_invoice()),
            decreases n - i,
        {
            proof {
                assert(self.invoices@.take(i + 1).drop_last() == self.invoices@.take(i as int));
                assert(self.invoices@.take(i + 1).last() == self.invoices@[i as int]);
                reveal_with_fuel(Seq::filter, 2);
            }
            if !self.invoices[i].is_deleted {
                live.push(clone_invoice(&self.invoices[i]));
            }
            i = i + 1;
        }
        proof {
            assert(self.invoices@.take(n as int) == self.invoices@);
        }
        let p64: u64 = match page {
            Some(v) => v as u64,
            None => 1u64,
        };
        let size64: u64 = match page_size {
            Some(v) => v as u64,
            None => 5u64,
        };
        assert((p64 - 1) as int * (size64 as int) <= 0xFFFF_FFFE_0000_0001) by (nonlinear_arith)
            requires
                1 <= p64 <= u32::MAX,
                size64 <= u32::MAX,
        ;
        let off: u64 = (p64 - 1) * size64;
        let len: u64 = live.len() as u64;
        let lo: u64 = if off < len {
            off
        } else {
            len
        };
        let hi: u64 = if off + size64 < len {
            off + size64
        } else {
            len
        };
        let mut rows: Vec<Invoice> = Vec::new();
        let mut k: u64 = lo;
        while k < hi
            invariant
                lo <= k <= hi,
                hi <= live@.len(),
                rows@ == live@.subrange(lo as int, k as int),
            decreases hi - k,
        {
            rows.push(clone_invoice(&live[k as usize]));
            proof {
                assert(rows@ =~= live@.subrange(lo as int, k + 1));
            }
            k = k + 1;
        }
        proof {
            assert(rows@ =~= self.invoices@.filter(is_live_invoice()).subrange(
                lo as int,
                hi as int,
            ));
        }
        PaginatedInvoicesResult { rows, total: len }
    }

    /// Lists the soft-deleted invoices, in storage order.
    pub fn get_deleted_invoices(&self) -> (r: Vec<Invoice>)
        ensures
            r@ == self.invoices@.filter(is_deleted_invoice()),
    {
        let n: usize = self.invoices.len();
        let mut out: Vec<Invoice> = Vec::new();
        let mut i: usize = 0;
        while i < n
            invariant
                i <= n,
                n == self.invoices@.len(),
                out@ == self.invoices@.take(i as int).filter(is_deleted_invoice()),
            decreases n - i,
        {
            proof {
                assert(self.invoices@.take(i + 1).drop_last() == self.invoices@.take(i as int));
                assert(self.invoices@.take(i + 1).last() == self.invoices@[i as int]);
                reveal_with_fuel(Seq::filter, 2);
            }
            if self.invoices[i].is_deleted {
                out.push(clone_invoice(&self.invoices[i]));
            }
            i = i + 1;
        }
        proof {
            assert(self.invoices@.take(n as int) == self.invoices@);
        }
        out
    }
}


/// Whether this key occurs in the given list of keys.
pub open spec fn id_in_list(ids: Seq<String>, x: Seq<char>) -> bool {
    exists|k: int| 0 <= k < ids.len() && ids[k]@ == x
}

/// The sale table after marking every sale named in the list as
/// invoiced under the given invoice.
pub open spec fn sales_marked_for_invoice(ss: Seq<Sale>, ids: Seq<String>, vid: String) -> Seq<
    Sale,
> {
    Seq::new(
        ss.len(),
        |i: int|
            if id_in_list(ids, ss[i].id@) {
                Sale { is_invoiced: true, invoice_id: Some(vid), ..ss[i] }
            } else {
                ss[i]
            },
    )
}

/// The payment table after re-pointing every payment of the listed
/// sales at the given invoice.
pub open spec fn payments_repointed(ps: Seq<Payment>, ids: Seq<String>, vid: String) -> Seq<
    Payment,
> {
    Seq::new(
        ps.len(),
        |i: int|
            match ps[i].sale_id {
                Some(s) => if id_in_list(ids, s@) {
                    Payment { invoice_id: Some(vid), ..ps[i] }
                } else {
                    ps[i]
                },
                None => ps[i],
            },
    )
}

/// The link table after appending one membership row per listed
/// sale, in list order.
pub open spec fn links_appended(ls: Seq<InvoiceSale>, ids: Seq<String>, vid: String, t: u64) -> Seq<
    InvoiceSale,
> {
    ls + Seq::new(ids.len(), |k: int| InvoiceSale { invoice_id: vid, sale_id: ids[k], created_at: t })
}

/// The freshly inserted invoice row built from a create request:
/// whatever the caller supplied, a new invoice starts unpaid with no
/// paid timestamp.
pub open spec fn invoice_row_created(
    post: Invoice,
    req: CreateInvoiceRequest,
    id: Seq<char>,
    t: u64,
) -> bool {
    &&& post.id@ == id
    &&& post.invoice_number == req.invoice_number
    &&& post.client_id == req.client_id
    &&& post.date == req.date
    &&& post.due_date == req.due_date
    &&& post.total_amount_ht == req.total_amount_ht
    &&& post.total_amount_ttc == req.total_amount_ttc
    &&& !post.is_paid
    &&& post.paid_at is None
    &&& !post.is_deleted
    &&& post.deleted_at is None
    &&& post.created_at == t
    &&& post.updated_at == Some(t)
}

/// Extending the key list by one key marks exactly the rows of that
/// key in addition.
proof fn lemma_id_in_list_take(ids: Seq<String>, k: int, x: Seq<char>)
    requires
        0 <= k < ids.len(),
    ensures
        id_in_list(ids.take(k + 1), x) == (id_in_list(ids.take(k), x) || ids[k]@ == x),
{
    if id_in_list(ids.take(k + 1), x) {
        let j = choose|j: int| #![trigger ids.take(k + 1)[j]] 0 <= j < ids.take(k + 1).len() && ids.take(k + 1)[j]@ == x;
        if j < k {
            assert(ids.take(k)[j]@ == x);
        } else {
            assert(ids[k]@ == x);
        }
    }
    if id_in_list(ids.take(k), x) {
        let j = choose|j: int| #![trigger ids.take(k)[j]] 0 <= j < ids.take(k).len() && ids.take(k)[j]@ == x;
        assert(ids.take(k + 1)[j]@ == x);
    }
    if ids[k]@ == x {
        assert(ids.take(k + 1)[k]@ == x);
    }
}

/// Marks every row of one sale as invoiced under the given invoice.
fn point_sales_at_invoice(ss: &mut Vec<Sale>, sale_id: &String, vid: &String)
    ensures
        final(ss)@ == crate::sales::sales_with_invoice_ref(old(ss)@, sale_id@, Some(*vid), true),
{
    let n: usize = ss.len();
    let mut i: usize = 0;
    while i < n
        invariant
            i <= n,
            n == ss@.len(),
            ss@.len() == old(ss)@.len(),
            forall|j: int| i <= j < n ==> ss@[j] == old(ss)@[j],
            forall|j: int|
                0 <= j < i ==> ss@[j] == crate::sales::sales_with_invoice_ref(
                    old(ss)@,
                    sale_id@,
                    Some(*vid),
                    true,
                )[j],
        decreases n - i,
    {
        if ss[i].id == *sale_id {
            let fresh_ref: String = vid.clone();
            let row = &mut ss[i];
            row.is_invoiced = true;
            row.invoice_id = Some(fresh_ref);
        }
        i = i + 1;
    }
    proof {
        assert(ss@ =~= crate::sales::sales_with_invoice_ref(old(ss)@, sale_id@, Some(*vid), true));
    }
}

/// The payment table after re-pointing one sale's payments at the
/// given invoice.
pub open spec fn payments_repointed_one(ps: Seq<Payment>, sale_id: Seq<char>, vid: String) -> Seq<
    Payment,
> {
    Seq::new(
        ps.len(),
        |i: int|
            if opt_id_is(ps[i].sale_id, sale_id) {
                Payment { invoice_id: Some(vid), ..ps[i] }
            } else {
                ps[i]
            },
    )
}

/// Re-points every payment of one sale at the given invoice.
fn repoint_payments(ps: &mut Vec<Payment>, sale_id: &String, vid: &String)
    ensures
        final(ps)@ == payments_repointed_one(old(ps)@, sale_id@, *vid),
{
    let n: usize = ps.len();
    let mut i: usize = 0;
    while i < n
        invariant
            i <= n,
            n == ps@.len(),
            ps@.len() == old(ps)@.len(),
            forall|j: int| i <= j < n ==> ps@[j] == old(ps)@[j],
            forall|j: int|
                0 <= j < i ==> ps@[j] == payments_repointed_one(old(ps)@, sale_id@, *vid)[j],
        decreases n - i,
    {
        let matches: bool = match &ps[i].sale_id {
            Some(v) => *v == *sale_id,
            None => false,
        };
        if matches {
            let fresh_ref: String = vid.clone();
            let row = &mut ps[i];
            row.invoice_id = Some(fresh_ref);
        }
        i = i + 1;
    }
    proof {
        assert(ps@ =~= payments_repointed_one(old(ps)@, sale_id@, *vid));
    }
}

/// Detaches every sale that points at this invoice, leaving it
/// re-invoiceable.
fn detach_sales(ss: &mut Vec<Sale>, invoice_id: &String)
    ensures
        final(ss)@ == sales_detached(old(ss)@, invoice_id@),
{
    let n: usize = ss.len();
    let mut i: usize = 0;
    while i < n
        invariant
            i <= n,
            n == ss@.len(),
            ss@.len() == old(ss)@.len(),
            forall|j: int| i <= j < n ==> ss@[j] == old(ss)@[j],
            forall|j: int| 0 <= j < i ==> ss@[j] == sales_detached(old(ss)@, invoice_id@)[j],
        decreases n - i,
    {
        let matches: bool = match &ss[i].invoice_id {
            Some(v) => *v == *invoice_id,
            None => false,
        };
        if matches {
            let row = &mut ss[i];
            row.is_invoiced = false;
            row.invoice_id = None;
        }
        i = i + 1;
    }
    proof {
        assert(ss@ =~= sales_detached(old(ss)@, invoice_id@));
    }
}

/// Removes every membership row of this invoice from the link table.
fn remove_invoice_links(ls: &mut Vec<InvoiceSale>, invoice_id: &String)
    ensures
        final(ls)@ == old(ls)@.filter(keeps_other_invoices(invoice_id@)),
{
    let n: usize = ls.len();
    let mut out: Vec<InvoiceSale> = Vec::new();
    let mut i: usize = 0;
    while i < n
        invariant
            i <= n,
            n == ls@.len(),
            ls@ == old(ls)@,
            out@ == ls@.take(i as int).filter(keeps_other_invoices(invoice_id@)),
        decreases n - i,
    {
        proof {
            assert(ls@.take(i + 1).drop_last() == ls@.take(i as int));
            assert(ls@.take(i + 1).last() == ls@[i as int]);
            reveal_with_fuel(Seq::filter, 2);
        }
        if !(ls[i].invoice_id == *invoice_id) {
            out.push(
                InvoiceSale {
                    invoice_id: ls[i].invoice_id.clone(),
                    sale_id: ls[i].sale_id.clone(),
                    created_at: ls[i].created_at,
                },
            );
        }
        i = i + 1;
    }
    proof {
        assert(ls@.take(n as int) == ls@);
    }
    *ls = out;
}

/// Physically removes every invoice row with this id.
fn remove_invoice_rows(vs: &mut Vec<Invoice>, id: &String)
    ensures
        final(vs)@ == old(vs)@.filter(keeps_other_invoice_rows(id@)),
{
    let n: usize = vs.len();
    let mut out: Vec<Invoice> = Vec::new();
    let mut i: usize = 0;
    while i < n
        invariant
            i <= n,
            n == vs@.len(),
            vs@ == old(vs)@,
            out@ == vs@.take(i as int).filter(keeps_other_invoice_rows(id@)),
        decreases n - i,
    {
        proof {
            assert(vs@.take(i + 1).drop_last() == vs@.take(i as int));
            assert(vs@.take(i + 1).last() == vs@[i as int]);
            reveal_with_fuel(Seq::filter, 2);
        }
        if !(vs[i].id == *id) {
            out.push(clone_invoice(&vs[i]));
        }
        i = i + 1;
    }
    proof {
        assert(vs@.take(n as int) == vs@);
    }
    *vs = out;
}


impl Ledger {
    /// Records a new invoice under the given fresh key and
    /// timestamp. Whatever paid state the caller supplied, the new
    /// row starts unpaid with no timestamp. Every listed sale is
    /// marked invoiced and re-pointed at the new invoice, one
    /// membership row is added per listed sale, and the sales'
    /// payments are re-pointed too; a closing reconciliation pass
    /// then marks the invoice paid at once when those payments
    /// already cover it. A key that is already taken is refused as a
    /// storage fault, with nothing written.
    pub fn create_invoice_with(&mut self, invoice: CreateInvoiceRequest, id: String, now: u64) -> (r:
        Result<Invoice, Error>)
        ensures
            create_invoice_post(*old(self), *final(self), invoice, id, r, now),

    {
        if find_invoice(&self.invoices, &id).is_some() {
            return Err(Error::Storage);
        }
        let row = Invoice {
            id: id.clone(),
            invoice_number: invoice.invoice_number,
            client_id: invoice.client_id,
            date: invoice.date,
            due_date: invoice.due_date,
            total_amount_ht: invoice.total_amount_ht,
            total_amount_ttc: invoice.total_amount_ttc,
            is_paid: false,
            paid_at: None,
            is_deleted: false,
            deleted_at: None,
            created_at: now,
            updated_at: Some(now),
        };
        let returned = clone_invoice(&row);
        self.invoices.push(row);
        let ghost mid_invoices = self.invoices@;
        let ids: &Vec<String> = &invoice.sales_ids;
        let m: usize = ids.len();
        let mut k: usize = 0;
        while k < m
            invariant
                k <= m,
                m == ids@.len(),
                self.clients@ == old(self).clients@,
                self.audit_log@ == old(self).audit_log@,
                self.invoices@ == mid_invoices,
                self.sales@ == sales_marked_for_invoice(old(self).sales@, ids@.take(k as int), id),
                self.invoice_sales@ == links_appended(
                    old(self).invoice_sales@,
                    ids@.take(k as int),
                    id,
                    now,
                ),
                self.payments@ == payments_repointed(old(self).payments@, ids@.take(k as int), id),
            decreases m - k,
        {
            let ghost sales_pre = self.sales@;
            let ghost links_pre = self.invoice_sales@;
            let ghost pays_pre = self.payments@;
            let sid: &String = &ids[k];
            point_sales_at_invoice(&mut self.sales, sid, &id);
            self.invoice_sales.push(
                InvoiceSale { invoice_id: id.clone(), sale_id: sid.clone(), created_at: now },
            );
            repoint_payments(&mut self.payments, sid, &id);
            proof {
                assert forall|x: Seq<char>| true implies id_in_list(ids@.take(k + 1), x) == (
                id_in_list(ids@.take(k as int), x) || ids@[k as int]@ == x) by {
                    lemma_id_in_list_take(ids@, k as int, x);
                }
                assert(self.sales@ =~= sales_marked_for_invoice(
                    old(self).sales@,
                    ids@.take(k + 1),
                    id,
                ));
                assert(self.invoice_sales@ =~= links_appended(
                    old(self).invoice_sales@,
                    ids@.take(k + 1),
                    id,
                    now,
                ));
                assert(self.payments@ =~= payments_repointed(
                    old(self).payments@,
                    ids@.take(k + 1),
                    id,
                ));
            }
            k = k + 1;
        }
        proof {
            assert(ids@.take(m as int) == ids@);
        }
        refresh_invoices(&mut self.invoices, &self.payments, &self.sales, now);
        Ok(returned)
    }

    /// Deletes an invoice on the path the Deletion Guard chooses
    /// (I3): a draft that is unpaid with no live payment is removed
    /// physically together with its membership rows, anything else
    /// keeps its row and payments and is only marked deleted. Either
    /// way its sales are detached and become re-invoiceable, and a
    /// closing reconciliation pass refreshes every live invoice. An
    /// unknown id is reported as missing, with nothing written.
    pub fn delete_invoice_at(&mut self, id: &String, now: u64) -> (r: Result<(), Error>)
        requires
            old(self).audit_log@.len() < u64::MAX,
        ensures
            delete_invoice_post(*old(self), *final(self), id@, r, now),

    {
        if find_invoice(&self.invoices, id).is_none() {
            return Err(Error::NotFound);
        }
        let hard: bool = !paid_row(&self.invoices, id) && !live_direct_payment(&self.payments, id);
        if hard {
            remove_invoice_links(&mut self.invoice_sales, id);
            detach_sales(&mut self.sales, id);
            remove_invoice_rows(&mut self.invoices, id);
            refresh_invoices(&mut self.invoices, &self.payments, &self.sales, now);
            append_audit(
                &mut self.audit_log,
                "hard_delete",
                "invoice",
                id,
                "Invoice hard-deleted (draft, no payments)",
                now,
            );
        } else {
            detach_sales(&mut self.sales, id);
            let ghost pre = self.invoices@;
            let n: usize = self.invoices.len();
            let mut i: usize = 0;
            while i < n
                invariant
                    i <= n,
                    n == pre.len(),
                    self.invoices@.len() == pre.len(),
                    forall|j: int| i <= j < n ==> self.invoices@[j] == pre[j],
                    forall|j: int|
                        0 <= j < i ==> self.invoices@[j] == invoices_with_deleted(
                            pre,
                            id@,
                            now,
                        )[j],
                    self.clients@ == old(self).clients@,
                    self.sales@ == sales_detached(old(self).sales@, id@),
                    self.payments@ == old(self).payments@,
                    self.invoice_sales@ == old(self).invoice_sales@,
                    self.audit_log@ == old(self).audit_log@,
                    pre == old(self).invoices@,
                decreases n - i,
            {
                if self.invoices[i].id == *id {
                    let row = &mut self.invoices[i];
                    row.is_deleted = true;
                    row.deleted_at = Some(now);
                }
                i = i + 1;
            }
            proof {
                assert(self.invoices@ =~= invoices_with_deleted(pre, id@, now));
            }
            refresh_invoices(&mut self.invoices, &self.payments, &self.sales, now);
            append_audit(
                &mut self.audit_log,
                "soft_delete",
                "invoice",
                id,
                "Invoice soft-deleted",
                now,
            );
        }
        Ok(())
    }
}


impl Ledger {
    /// Records a new invoice under a freshly drawn key at the
    /// current time. The drawn key and clock reading are outside
    /// influences, so the contract holds for some key and time; the
    /// exact transition is stated over the keyed operation.
    pub fn create_invoice(&mut self, invoice: CreateInvoiceRequest) -> (r: Result<Invoice, Error>)
        ensures
            exists|key: String, t: u64|
                #[trigger] create_invoice_post(*old(self), *final(self), invoice, key, r, t),
    {
        let id: String = crate::idgen::new_key();
        let now: u64 = crate::clock::now_millis();
        let ghost key = id;
        let r = self.create_invoice_with(invoice, id, now);
        proof {
            assert(create_invoice_post(*old(self), *self, invoice, key, r, now));
        }
        r
    }

    /// Deletes an invoice on the guard-chosen path at the current
    /// time; the clock reading is an outside influence, so the
    /// contract holds for some time.
    pub fn delete_invoice(&mut self, id: &String) -> (r: Result<(), Error>)
        requires
            old(self).audit_log@.len() < u64::MAX,
        ensures
            exists|t: u64| #[trigger] delete_invoice_post(*old(self), *final(self), id@, r, t),
    {
        let now: u64 = crate::clock::now_millis();
        let r = self.delete_invoice_at(id, now);
        proof {
            assert(delete_invoice_post(*old(self), *self, id@, r, now));
        }
        r
    }

    /// Restores a soft-deleted invoice at the current time; the
    /// clock reading is an outside influence, so the contract holds
    /// for some time.
    pub fn restore_invoice(&mut self, id: &String) -> (r: Result<(), Error>)
        requires
            old(self).audit_log@.len() < u64::MAX,
        ensures
            exists|t: u64| #[trigger] restore_invoice_post(*old(self), *final(self), id@, r, t),
    {
        let now: u64 = crate::clock::now_millis();
        let r = self.restore_invoice_at(id, now);
        proof {
            assert(restore_invoice_post(*old(self), *self, id@, r, now));
        }
        r
    }

    /// Edits an invoice's tax-inclusive total at the current time;
    /// the clock reading is an outside influence, so the contract
    /// holds for some time.
    pub fn set_invoice_total_ttc(&mut self, id: &String, ttc: u64) -> (r: Result<(), Error>)
        ensures
            exists|t: u64|
                #[trigger] set_invoice_total_ttc_post(*old(self), *final(self), id@, ttc, r, t),
    {
        let now: u64 = crate::clock::now_millis();
        let r = self.set_invoice_total_ttc_at(id, ttc, now);
        proof {
            assert(set_invoice_total_ttc_post(*old(self), *self, id@, ttc, r, now));
        }
        r
    }
}


/// A sale row whose back-reference points at the given invoice.
pub open spec fn backrefs_invoice(invoice_id: Seq<char>) -> spec_fn(Sale) -> bool {
    |s: Sale| opt_id_is(s.invoice_id, invoice_id)
}

/// The keys of the sales attached to an invoice through their
/// back-reference, in storage order.
pub open spec fn member_sale_ids(ss: Seq<Sale>, invoice_id: Seq<char>) -> Seq<String> {
    ss.filter(backrefs_invoice(invoice_id)).map_values(|s: Sale| s.id)
}

impl Ledger {
    /// Lists the keys of the sales attached to an invoice through
    /// their back-reference, the companion listing of an invoice
    /// page.
    pub fn invoice_member_sale_ids(&self, invoice_id: &String) -> (r: Vec<String>)
        ensures
            r@ == member_sale_ids(self.sales@, invoice_id@),
    {
        let n: usize = self.sales.len();
        let mut out: Vec<String> = Vec::new();
        let mut i: usize = 0;
        while i < n
            invariant
                i <= n,
                n == self.sales@.len(),
                out@ == member_sale_ids(self.sales@.take(i as int), invoice_id@),
            decreases n - i,
        {
            proof {
                assert(self.sales@.take(i + 1).drop_last() == self.sales@.take(i as int));
                assert(self.sales@.take(i + 1).last() == self.sales@[i as int]);
                reveal_with_fuel(Seq::filter, 2);
            }
            let attached: bool = match &self.sales[i].invoice_id {
                Some(v) => *v == *invoice_id,
                None => false,
            };
            if attached {
                out.push(self.sales[i].id.clone());
            }
            proof {
                assert(out@ =~= member_sale_ids(self.sales@.take(i + 1), invoice_id@));
            }
            i = i + 1;
        }
        proof {
            assert(self.sales@.take(n as int) == self.sales@);
        }
        out
    }
}

} // verus!
