use vstd::prelude::*;

use crate::ledger::{append_audit, audit_appended, find_payment, find_sale, has_payment,
    payment_deleted, payment_restored, Ledger};
use crate::model::{clone_opt_string, CreatePaymentRequest, Error, Payment, Sale};
use crate::reconcile::{refresh_invoices, refreshed_invoices};

verus! {

/// A payment row that is not soft-deleted.
pub open spec fn is_live_payment() -> spec_fn(Payment) -> bool {
    |p: Payment| !p.is_deleted
}

/// A payment row that is soft-deleted.
pub open spec fn is_deleted_payment() -> spec_fn(Payment) -> bool {
    |p: Payment| p.is_deleted
}

/// The payment table after soft-deleting every row with this id.
pub open spec fn payments_with_deleted(ps: Seq<Payment>, id: Seq<char>, t: u64) -> Seq<Payment> {
    Seq::new(
        ps.len(),
        |i: int|
            if ps[i].id@ == id {
                payment_deleted(ps[i], t)
            } else {
                ps[i]
            },
    )
}

/// The payment table after clearing soft-delete on every row with
/// this id.
pub open spec fn payments_with_restored(ps: Seq<Payment>, id: Seq<char>) -> Seq<Payment> {
    Seq::new(
        ps.len(),
        |i: int|
            if ps[i].id@ == id {
                payment_restored(ps[i])
            } else {
                ps[i]
            },
    )
}

/// The payment table after writing a new amount on every row with
/// this id.
pub open spec fn payments_with_amount(ps: Seq<Payment>, id: Seq<char>, amount: u64, t: u64) -> Seq<
    Payment,
> {
    Seq::new(
        ps.len(),
        |i: int|
            if ps[i].id@ == id {
                Payment { amount, updated_at: Some(t), ..ps[i] }
            } else {
                ps[i]
            },
    )
}

/// The invoice back-reference a new payment must carry (I1): when the
/// payment belongs to a sale and the first row of that sale is
/// invoiced, the sale's invoice; otherwise whatever the caller
/// supplied.
pub open spec fn propagated_invoice_ref(
    ss: Seq<Sale>,
    sale_id: Option<String>,
    fallback: Option<String>,
    result: Option<String>,
) -> bool {
    match sale_id {
        None => result == fallback,
        Some(s) => {
            &&& (forall|j: int| 0 <= j < ss.len() ==> ss[j].id@ != s@) ==> result == fallback
            &&& forall|i: int|
                (0 <= i < ss.len() && ss[i].id@ == s@ && (forall|j: int|
                    0 <= j < i ==> ss[j].id@ != s@)) ==> result == (if ss[i].invoice_id is Some {
                    ss[i].invoice_id
                } else {
                    fallback
                })
        },
    }
}

fn clone_payment(p: &Payment) -> (r: Payment)
    ensures
        r == *p,
{
    Payment {
        id: p.id.clone(),
        sale_id: clone_opt_string(&p.sale_id),
        invoice_id: clone_opt_string(&p.invoice_id),
        client_id: p.client_id.clone(),
        amount: p.amount,
        date: p.date,
        method: p.method.clone(),
        notes: clone_opt_string(&p.notes),
        check_number: clone_opt_string(&p.check_number),
        created_at: p.created_at,
        updated_at: p.updated_at,
        is_deleted: p.is_deleted,
        deleted_at: p.deleted_at,
    }
}

/// Soft-deletes every payment row with this id.
fn mark_payments_deleted(ps: &mut Vec<Payment>, id: &String, t: u64)
    ensures
        final(ps)@ == payments_with_deleted(old(ps)@, id@, t),
{
    let n: usize = ps.len();
    let mut i: usize = 0;
    while i < n
        invariant
            i <= n,
            n == ps@.len(),
            ps@.len() == old(ps)@.len(),
            forall|j: int| i <= j < n ==> ps@[j] == old(ps)@[j],
            forall|j: int| 0 <= j < i ==> ps@[j] == payments_with_deleted(old(ps)@, id@, t)[j],
        decreases n - i,
    {
        if ps[i].id == *id {
            let row = &mut ps[i];
            row.is_deleted = true;
            row.deleted_at = Some(t);
        }
        i = i + 1;
    }
    proof {
        assert(ps@ =~= payments_with_deleted(old(ps)@, id@, t));
    }
}

/// Clears soft-delete on every payment row with this id.
fn mark_payments_restored(ps: &mut Vec<Payment>, id: &String)
    ensures
        final(ps)@ == payments_with_restored(old(ps)@, id@),
{
    let n: usize = ps.len();
    let mut i: usize = 0;
    while i < n
        invariant
            i <= n,
            n == ps@.len(),
            ps@.len() == old(ps)@.len(),
            forall|j: int| i <= j < n ==> ps@[j] == old(ps)@[j],
            forall|j: int| 0 <= j < i ==> ps@[j] == payments_with_restored(old(ps)@, id@)[j],
        decreases n - i,
    {
        if ps[i].id == *id {
            let row = &mut ps[i];
            row.is_deleted = false;
            row.deleted_at = None;
        }
        i = i + 1;
    }
    proof {
        assert(ps@ =~= payments_with_restored(old(ps)@, id@));
    }
}

/// Writes a new amount on every payment row with this id.
fn write_payment_amount(ps: &mut Vec<Payment>, id: &String, amount: u64, t: u64)
    ensures
        final(ps)@ == payments_with_amount(old(ps)@, id@, amount, t),
{
    let n: usize = ps.len();
    let mut i: usize = 0;
    while i < n
        invariant
            i <= n,
            n == ps@.len(),
            ps@.len() == old(ps)@.len(),
            forall|j: int| i <= j < n ==> ps@[j] == old(ps)@[j],
            forall|j: int|
                0 <= j < i ==> ps@[j] == payments_with_amount(old(ps)@, id@, amount, t)[j],
        decreases n - i,
    {
        if ps[i].id == *id {
            let row = &mut ps[i];
            row.amount = amount;
            row.updated_at = Some(t);
        }
        i = i + 1;
    }
    proof {
        assert(ps@ =~= payments_with_amount(old(ps)@, id@, amount, t));
    }
}

/// The full effect of recording one payment under a given key and
/// timestamp; or the refusal of a taken key, with nothing written.
pub open spec fn create_payment_post(
    pre: Ledger,
    post: Ledger,
    payment: CreatePaymentRequest,
    id: Seq<char>,
    r: Result<Payment, Error>,
    now: u64,
) -> bool {
    &&& post.clients@ == pre.clients@
    &&& post.sales@ == pre.sales@
    &&& post.invoice_sales@ == pre.invoice_sales@
    &&& post.audit_log@ == pre.audit_log@
    &&& match r {
                Ok(row) => {
                    &&& !has_payment(pre.payments@, id)
                    &&& post.payments@ == pre.payments@.push(row)
                    &&& row.id@ == id
                    &&& row.sale_id == payment.sale_id
                    &&& propagated_invoice_ref(
                        pre.sales@,
                        payment.sale_id,
                        payment.invoice_id,
                        row.invoice_id,
                    )
                    &&& row.client_id == payment.client_id
                    &&& row.amount == payment.amount
                    &&& row.date == payment.date
                    &&& row.method == payment.method
                    &&& row.notes == payment.notes
                    &&& row.check_number == (if payment.method@ == "check"@ {
                        payment.check_number
                    } else {
                        None::<String>
                    })
                    &&& row.created_at == now
                    &&& row.updated_at == Some(now)
                    &&& !row.is_deleted
                    &&& row.deleted_at is None
                    &&& post.invoices@ == refreshed_invoices(
                        pre.invoices@,
                        post.payments@,
                        pre.sales@,
                        now,
                    )
                },
                Err(e) => {
                    &&& e == Error::Storage
                    &&& has_payment(pre.payments@, id)
                    &&& post.payments@ == pre.payments@
                    &&& post.invoices@ == pre.invoices@
                },
            }
}

/// The full effect of soft-deleting one payment: the rows marked,
/// the closing reconciliation pass, and the audit entry; or the
/// report of a missing key, with nothing written.
pub open spec fn delete_payment_post(
    pre: Ledger,
    post: Ledger,
    id: Seq<char>,
    r: Result<(), Error>,
    now: u64,
) -> bool {
    &&& post.clients@ == pre.clients@
    &&& post.sales@ == pre.sales@
    &&& post.invoice_sales@ == pre.invoice_sales@
    &&& match r {
                Ok(u) => {
                    &&& has_payment(pre.payments@, id)
                    &&& post.payments@ == payments_with_deleted(
                        pre.payments@,
                        id,
                        now,
                    )
                    &&& post.invoices@ == refreshed_invoices(
                        pre.invoices@,
                        post.payments@,
                        pre.sales@,
                        now,
                    )
                    &&& audit_appended(
                        pre.audit_log@,
                        post.audit_log@,
                        "soft_delete"@,
                        "payment"@,
                        id,
                        now,
                        "Payment soft-deleted"@,
                    )
                },
                Err(e) => {
                    &&& e == Error::NotFound
                    &&& !has_payment(pre.payments@, id)
                    &&& post.payments@ == pre.payments@
                    &&& post.invoices@ == pre.invoices@
                    &&& post.audit_log@ == pre.audit_log@
                },
            }
}

/// The full effect of restoring one soft-deleted payment: the rows
/// cleared, the closing reconciliation pass, and the audit entry; or
/// the report of a missing key, with nothing written.
pub open spec fn restore_payment_post(
    pre: Ledger,
    post: Ledger,
    id: Seq<char>,
    r: Result<(), Error>,
    now: u64,
) -> bool {
    &&& post.clients@ == pre.clients@
    &&& post.sales@ == pre.sales@
    &&& post.invoice_sales@ == pre.invoice_sales@
    &&& match r {
                Ok(u) => {
                    &&& has_payment(pre.payments@, id)
                    &&& post.payments@ == payments_with_restored(pre.payments@, id)
                    &&& post.invoices@ == refreshed_invoices(
                        pre.invoices@,
                        post.payments@,
                        pre.sales@,
                        now,
                    )
                    &&& audit_appended(
                        pre.audit_log@,
                        post.audit_log@,
                        "restore"@,
                        "payment"@,
                        id,
                        now,
                        "Payment restored"@,
                    )
                },
                Err(e) => {
                    &&& e == Error::NotFound
                    &&& !has_payment(pre.payments@, id)
                    &&& post.payments@ == pre.payments@
                    &&& post.invoices@ == pre.invoices@
                    &&& post.audit_log@ == pre.audit_log@
                },
            }
}

/// The full effect of editing one payment's amount: the rows
/// rewritten and the closing reconciliation pass; or the report of a
/// missing key, with nothing written.
pub open spec fn set_payment_amount_post(
    pre: Ledger,
    post: Ledger,
    id: Seq<char>,
    amount: u64,
    r: Result<(), Error>,
    now: u64,
) -> bool {
    &&& post.clients@ == pre.clients@
    &&& post.sales@ == pre.sales@
    &&& post.invoice_sales@ == pre.invoice_sales@
    &&& post.audit_log@ == pre.audit_log@
    &&& match r {
                Ok(u) => {
                    &&& has_payment(pre.payments@, id)
                    &&& post.payments@ == payments_with_amount(
                        pre.payments@,
                        id,
                        amount,
                        now,
                    )
                    &&& post.invoices@ == refreshed_invoices(
                        pre.invoices@,
                        post.payments@,
                        pre.sales@,
                        now,
                    )
                },
                Err(e) => {
                    &&& e == Error::NotFound
                    &&& !has_payment(pre.payments@, id)
                    &&& post.payments@ == pre.payments@
                    &&& post.invoices@ == pre.invoices@
                },
            }
}

impl Ledger {
    /// Records a new payment under the given fresh key and timestamp.
    /// A check number is kept only for check payments; the invoice
    /// back-reference is taken from the payment's sale when that sale
    /// is invoiced (I1). Ends by reconciling every live invoice, so a
    /// payment that covers its invoice marks it paid at once. A key
    /// that is already taken is refused as a storage fault, with
    /// nothing written.
    pub fn create_payment_with(&mut self, payment: CreatePaymentRequest, id: String, now: u64) -> (r:
        Result<Payment, Error>)
        ensures
            create_payment_post(*old(self), *final(self), payment, id@, r, now),

    {
        if find_payment(&self.payments, &id).is_some() {
            return Err(Error::Storage);
        }
        let check_number: Option<String> = if payment.method == String::from_str("check") {
            clone_opt_string(&payment.check_number)
        } else {
            None
        };
        let invoice_ref: Option<String> = match &payment.sale_id {
            Some(sid) => {
                match find_sale(&self.sales, sid) {
                    Some(i) => {
                        if self.sales[i].invoice_id.is_some() {
                            clone_opt_string(&self.sales[i].invoice_id)
                        } else {
                            clone_opt_string(&payment.invoice_id)
                        }
                    },
                    None => clone_opt_string(&payment.invoice_id),
                }
            },
            None => clone_opt_string(&payment.invoice_id),
        };
        let row = Payment {
            id: id.clone(),
            sale_id: payment.sale_id,
            invoice_id: invoice_ref,
            client_id: payment.client_id,
            amount: payment.amount,
            date: payment.date,
            method: payment.method,
            notes: payment.notes,
            check_number,
            created_at: now,
            updated_at: Some(now),
            is_deleted: false,
            deleted_at: None,
        };
        let returned = clone_payment(&row);
        self.payments.push(row);
        refresh_invoices(&mut self.invoices, &self.payments, &self.sales, now);
        Ok(returned)
    }

    /// Soft-deletes a payment and reconciles every live invoice, so
    /// an invoice that loses its covering payment reverts to unpaid
    /// at once (I2, never sticky). An unknown key is reported as
    /// missing, with nothing written.
    pub fn delete_payment_at(&mut self, id: &String, now: u64) -> (r: Result<(), Error>)
        requires
            old(self).audit_log@.len() < u64::MAX,
        ensures
            delete_payment_post(*old(self), *final(self), id@, r, now),

    {
        if find_payment(&self.payments, id).is_none() {
            return Err(Error::NotFound);
        }
        mark_payments_deleted(&mut self.payments, id, now);
        refresh_invoices(&mut self.invoices, &self.payments, &self.sales, now);
        append_audit(&mut self.audit_log, "soft_delete", "payment", id, "Payment soft-deleted", now);
        Ok(())
    }

    /// Restores a soft-deleted payment and reconciles every live
    /// invoice, so a restored covering payment marks its invoice paid
    /// again. An unknown key is reported as missing, with nothing
    /// written.
    pub fn restore_payment_at(&mut self, id: &String, now: u64) -> (r: Result<(), Error>)
        requires
            old(self).audit_log@.len() < u64::MAX,
        ensures
            restore_payment_post(*old(self), *final(self), id@, r, now),

    {
        if find_payment(&self.payments, id).is_none() {
            return Err(Error::NotFound);
        }
        mark_payments_restored(&mut self.payments, id);
        refresh_invoices(&mut self.invoices, &self.payments, &self.sales, now);
        append_audit(&mut self.audit_log, "restore", "payment", id, "Payment restored", now);
        Ok(())
    }

    /// Writes a new amount on a payment and reconciles every live
    /// invoice: raising a payment to cover its invoice marks the
    /// invoice paid, lowering it below the total reverts the invoice
    /// to unpaid. An unknown key is reported as missing, with nothing
    /// written.
    pub fn set_payment_amount_at(&mut self, id: &String, amount: u64, now: u64) -> (r: Result<
        (),
        Error,
    >)
        ensures
            set_payment_amount_post(*old(self), *final(self), id@, amount, r, now),

    {
        if find_payment(&self.payments, id).is_none() {
            return Err(Error::NotFound);
        }
        write_payment_amount(&mut self.payments, id, amount, now);
        refresh_invoices(&mut self.invoices, &self.payments, &self.sales, now);
        Ok(())
    }

    /// Lists the payments that are not soft-deleted, in storage
    /// order.
    pub fn get_payments(&self) -> (r: Vec<Payment>)
        ensures
            r@ == self.payments@.filter(is_live_payment()),
    {
        let n: usize = self.payments.len();
        let mut out: Vec<Payment> = Vec::new();
        let mut i: usize = 0;
        while i < n
            invariant
                i <= n,
                n == self.payments@.len(),
                out@ == self.payments@.take(i as int).filter(is_live_payment()),
            decreases n - i,
        {
            proof {
                assert(self.payments@.take(i + 1).drop_last() == self.payments@.take(i as int));
                assert(self.payments@.take(i + 1).last() == self.payments@[i as int]);
                reveal_with_fuel(Seq::filter, 2);
            }
            if !self.payments[i].is_deleted {
                out.push(clone_payment(&self.payments[i]));
            }
            i = i + 1;
        }
        proof {
            assert(self.payments@.take(n as int) == self.payments@);
        }
        out
    }

    /// Lists the soft-deleted payments, in storage order.
    pub fn get_deleted_payments(&self) -> (r: Vec<Payment>)
        ensures
            r@ == self.payments@.filter(is_deleted_payment()),
    {
        let n: usize = self.payments.len();
        let mut out: Vec<Payment> = Vec::new();
        let mut i: usize = 0;
        while i < n
            invariant
                i <= n,
                n == self.payments@.len(),
                out@ == self.payments@.take(i as int).filter(is_deleted_payment()),
            decreases n - i,
        {
            proof {
                assert(self.payments@.take(i + 1).drop_last() == self.payments@.take(i as int));
                assert(self.payments@.take(i + 1).last() == self.payments@[i as int]);
                reveal_with_fuel(Seq::filter, 2);
            }
            if self.payments[i].is_deleted {
                out.push(clone_payment(&self.payments[i]));
            }
            i = i + 1;
        }
        proof {
            assert(self.payments@.take(n as int) == self.payments@);
        }
        out
    }
}


impl Ledger {
    /// Records a new payment under a freshly drawn key at the
    /// current time. The drawn key and clock reading are outside
    /// influences, so the contract holds for some key and time; the
    /// exact transition is stated over the keyed operation.
    pub fn create_payment(&mut self, payment: CreatePaymentRequest) -> (r: Result<Payment, Error>)
        ensures
            exists|key: Seq<char>, t: u64|
                #[trigger] create_payment_post(*old(self), *final(self), payment, key, r, t),
    {
        let id: String = crate::idgen::new_key();
        let now: u64 = crate::clock::now_millis();
        let ghost key = id@;
        let r = self.create_payment_with(payment, id, now);
        proof {
            assert(create_payment_post(*old(self), *self, payment, key, r, now));
        }
        r
    }

    /// Soft-deletes a payment at the current time; the clock reading
    /// is an outside influence, so the contract holds for some time.
    pub fn delete_payment(&mut self, id: &String) -> (r: Result<(), Error>)
        requires
            old(self).audit_log@.len() < u64::MAX,
        ensures
            exists|t: u64| #[trigger] delete_payment_post(*old(self), *final(self), id@, r, t),
    {
        let now: u64 = crate::clock::now_millis();
        let r = self.delete_payment_at(id, now);
        proof {
            assert(delete_payment_post(*old(self), *self, id@, r, now));
        }
        r
    }

    /// Restores a soft-deleted payment at the current time; the
    /// clock reading is an outside influence, so the contract holds
    /// for some time.
    pub fn restore_payment(&mut self, id: &String) -> (r: Result<(), Error>)
        requires
            old(self).audit_log@.len() < u64::MAX,
        ensures
            exists|t: u64| #[trigger] restore_payment_post(*old(self), *final(self), id@, r, t),
    {
        let now: u64 = crate::clock::now_millis();
        let r = self.restore_payment_at(id, now);
        proof {
            assert(restore_payment_post(*old(self), *self, id@, r, now));
        }
        r
    }

    /// Edits a payment's amount at the current time; the clock
    /// reading is an outside influence, so the contract holds for
    /// some time.
    pub fn set_payment_amount(&mut self, id: &String, amount: u64) -> (r: Result<(), Error>)
        ensures
            exists|t: u64|
                #[trigger] set_payment_amount_post(*old(self), *final(self), id@, amount, r, t),
    {
        let now: u64 = crate::clock::now_millis();
        let r = self.set_payment_amount_at(id, amount, now);
        proof {
            assert(set_payment_amount_post(*old(self), *self, id@, amount, r, now));
        }
        r
    }
}

} // verus!
