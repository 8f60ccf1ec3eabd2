use vstd::prelude::*;

use crate::ledger::{has_invoice, invoice_status, opt_id_is, Ledger};
use crate::model::{Error, Invoice, Payment, Sale};

verus! {

/// Whether some sale row with this id carries the invoice as its
/// back-reference.
pub open spec fn sale_links_invoice(ss: Seq<Sale>, sale_id: Seq<char>, invoice_id: Seq<char>) -> bool {
    exists|i: int|
        0 <= i < ss.len() && ss[i].id@ == sale_id && opt_id_is(ss[i].invoice_id, invoice_id)
}

/// Whether a payment counts towards an invoice: it is not
/// soft-deleted and references the invoice directly, or through the
/// sale it belongs to.
pub open spec fn pays_invoice(p: Payment, ss: Seq<Sale>, invoice_id: Seq<char>) -> bool {
    &&& !p.is_deleted
    &&& (opt_id_is(p.invoice_id, invoice_id) || match p.sale_id {
        Some(s) => sale_links_invoice(ss, s@, invoice_id),
        None => false,
    })
}

/// The sum, in cents, of every payment that counts towards the
/// invoice.
pub open spec fn payment_sum(ps: Seq<Payment>, ss: Seq<Sale>, invoice_id: Seq<char>) -> int
    decreases ps.len(),
{
    if ps.len() == 0 {
        0
    } else {
        payment_sum(ps.drop_last(), ss, invoice_id) + if pays_invoice(ps.last(), ss, invoice_id) {
            ps.last().amount as int
        } else {
            0
        }
    }
}

/// The invoice row after one reconciliation pass against the given
/// effective payment sum. A covered total marks the invoice paid,
/// stamping the paid timestamp only when the row was not already
/// marked paid with a timestamp; an uncovered total reverts the row
/// to unpaid with no timestamp, unconditionally.
pub open spec fn reconciled_invoice(v: Invoice, sum: int, t: u64) -> Invoice {
    if sum >= v.total_amount_ttc {
        if v.is_paid && v.paid_at is Some {
            v
        } else {
            invoice_status(v, true, Some(t))
        }
    } else {
        if !v.is_paid && v.paid_at is None {
            v
        } else {
            invoice_status(v, false, None)
        }
    }
}

/// Whether a reconciliation pass would write the row at all.
pub open spec fn reconcile_writes(v: Invoice, sum: int) -> bool {
    if sum >= v.total_amount_ttc {
        !(v.is_paid && v.paid_at is Some)
    } else {
        v.is_paid || v.paid_at is Some
    }
}

/// Every live invoice row after a full reconciliation pass;
/// soft-deleted rows are left out of the recomputation.
pub open spec fn refreshed_invoices(
    vs: Seq<Invoice>,
    ps: Seq<Payment>,
    ss: Seq<Sale>,
    t: u64,
) -> Seq<Invoice> {
    Seq::new(
        vs.len(),
        |i: int|
            if vs[i].is_deleted {
                vs[i]
            } else {
                reconciled_invoice(vs[i], payment_sum(ps, ss, vs[i].id@), t)
            },
    )
}

/// The rows of one invoice id after a keyed reconciliation pass;
/// soft-deleted rows are left out of the recomputation.
pub open spec fn recomputed_rows(
    vs: Seq<Invoice>,
    ps: Seq<Payment>,
    ss: Seq<Sale>,
    invoice_id: Seq<char>,
    t: u64,
) -> Seq<Invoice> {
    Seq::new(
        vs.len(),
        |i: int|
            if vs[i].id@ == invoice_id && !vs[i].is_deleted {
                reconciled_invoice(vs[i], payment_sum(ps, ss, invoice_id), t)
            } else {
                vs[i]
            },
    )
}

/// Whether a keyed reconciliation pass writes at least one row.
pub open spec fn recompute_writes(
    vs: Seq<Invoice>,
    ps: Seq<Payment>,
    ss: Seq<Sale>,
    invoice_id: Seq<char>,
) -> bool {
    exists|i: int|
        0 <= i < vs.len() && vs[i].id@ == invoice_id && !vs[i].is_deleted && reconcile_writes(
            vs[i],
            payment_sum(ps, ss, invoice_id),
        )
}

/// Whether this payment counts towards the invoice, directly or
/// through its sale.
pub fn payment_pays(p: &Payment, ss: &Vec<Sale>, invoice_id: &String) -> (r: bool)
    ensures
        r == pays_invoice(*p, ss@, invoice_id@),
{
    if p.is_deleted {
        return false;
    }
    let direct: bool = match &p.invoice_id {
        Some(v) => *v == *invoice_id,
        None => false,
    };
    if direct {
        return true;
    }
    match &p.sale_id {
        Some(sid) => {
            let n: usize = ss.len();
            let mut i: usize = 0;
            while i < n
                invariant
                    i <= n,
                    n == ss@.len(),
                    !p.is_deleted,
                    !opt_id_is(p.invoice_id, invoice_id@),
                    (match p.sale_id {
                        Some(s) => s@ == sid@,
                        None => false,
                    }),
                    forall|j: int|
                        0 <= j < i ==> !(ss@[j].id@ == sid@ && opt_id_is(
                            ss@[j].invoice_id,
                            invoice_id@,
                        )),
                decreases n - i,
            {
                if ss[i].id == *sid {
                    let carries: bool = match &ss[i].invoice_id {
                        Some(v) => *v == *invoice_id,
                        None => false,
                    };
                    if carries {
                        proof {
                            assert(0 <= i < ss@.len() && ss@[i as int].id@ == sid@ && opt_id_is(
                                ss@[i as int].invoice_id,
                                invoice_id@,
                            ));
                        }
                        return true;
                    }
                }
                i = i + 1;
            }
            false
        },
        None => false,
    }
}

/// Sums every payment that counts towards the invoice, in cents.
pub fn payment_total(ps: &Vec<Payment>, ss: &Vec<Sale>, invoice_id: &String) -> (r: u128)
    ensures
        r as int == payment_sum(ps@, ss@, invoice_id@),
{
    let n: usize = ps.len();
    let mut acc: u128 = 0;
    let mut i: usize = 0;
    while i < n
        invariant
            i <= n,
            n == ps@.len(),
            acc as int == payment_sum(ps@.take(i as int), ss@, invoice_id@),
            acc as int <= (i as int) * (u64::MAX as int),
        decreases n - i,
    {
        proof {
            assert(ps@.take(i + 1).drop_last() == ps@.take(i as int));
            assert(ps@.take(i + 1).last() == ps@[i as int]);
        }
        if payment_pays(&ps[i], ss, invoice_id) {
            acc = acc + (ps[i].amount as u128);
        }
        i = i + 1;
    }
    proof {
        assert(ps@.take(n as int) == ps@);
    }
    acc
}

/// Reconciles every live invoice row against the current payment
/// table. Every mutation that can shift an invoice's effective
/// payments or total ends with this pass, which keeps the derived
/// status an always-fresh function of the payment history; on a row
/// whose status already agrees with its payments the pass is the
/// identity.
pub fn refresh_invoices(vs: &mut Vec<Invoice>, ps: &Vec<Payment>, ss: &Vec<Sale>, t: u64)
    ensures
        final(vs)@ == refreshed_invoices(old(vs)@, ps@, ss@, t),
{
    let n: usize = vs.len();
    let mut i: usize = 0;
    while i < n
        invariant
            i <= n,
            n == vs@.len(),
            vs@.len() == old(vs)@.len(),
            forall|j: int| i <= j < n ==> vs@[j] == old(vs)@[j],
            forall|j: int|
                0 <= j < i ==> vs@[j] == refreshed_invoices(old(vs)@, ps@, ss@, t)[j],
        decreases n - i,
    {
        if !vs[i].is_deleted {
            let vid: String = vs[i].id.clone();
            let sum: u128 = payment_total(ps, ss, &vid);
            let covered: bool = sum >= (vs[i].total_amount_ttc as u128);
            let row = &mut vs[i];
            if covered {
                if !(row.is_paid && row.paid_at.is_some()) {
                    row.is_paid = true;
                    row.paid_at = Some(t);
                }
            } else {
                if row.is_paid || row.paid_at.is_some() {
                    row.is_paid = false;
                    row.paid_at = None;
                }
            }
        }
        i = i + 1;
    }
    proof {
        assert(vs@ =~= refreshed_invoices(old(vs)@, ps@, ss@, t));
    }
}

/// The full effect of the keyed status recomputation (I2): the rows
/// of the invoice reconciled against the live payments, and whether
/// anything was written at all; or the report of a missing key, with
/// nothing written.
pub open spec fn recompute_invoice_status_post(
    pre: Ledger,
    post: Ledger,
    invoice_id: Seq<char>,
    r: Result<bool, Error>,
    now: u64,
) -> bool {
    &&& post.clients@ == pre.clients@
    &&& post.sales@ == pre.sales@
    &&& post.payments@ == pre.payments@
    &&& post.invoice_sales@ == pre.invoice_sales@
    &&& post.audit_log@ == pre.audit_log@
    &&& match r {
                Ok(changed) => {
                    &&& has_invoice(pre.invoices@, invoice_id)
                    &&& post.invoices@ == recomputed_rows(
                        pre.invoices@,
                        pre.payments@,
                        pre.sales@,
                        invoice_id,
                        now,
                    )
                    &&& changed == recompute_writes(
                        pre.invoices@,
                        pre.payments@,
                        pre.sales@,
                        invoice_id,
                    )
                },
                Err(e) => {
                    &&& e == Error::NotFound
                    &&& !has_invoice(pre.invoices@, invoice_id)
                    &&& post.invoices@ == pre.invoices@
                },
            }
}

impl Ledger {
    /// Recomputes the paid status of one invoice from the live set of
    /// payments attached to it, directly or through its member sales
    /// (I2). Returns whether anything was written: a second call with
    /// no intervening change writes nothing. A soft-deleted row is
    /// excluded from recomputation and left untouched; an unknown id
    /// is reported as missing.
    pub fn recompute_invoice_status_at(&mut self, invoice_id: &String, now: u64) -> (r: Result<
        bool,
        Error,
    >)
        ensures
            recompute_invoice_status_post(*old(self), *final(self), invoice_id@, r, now),

    {
        let n: usize = self.invoices.len();
        let mut found: bool = false;
        let mut changed: bool = false;
        let sum: u128 = payment_total(&self.payments, &self.sales, invoice_id);
        let ghost pre = self.invoices@;
        let mut i: usize = 0;
        while i < n
            invariant
                i <= n,
                n == pre.len(),
                self.invoices@.len() == pre.len(),
                self.clients@ == old(self).clients@,
                self.sales@ == old(self).sales@,
                self.payments@ == old(self).payments@,
                self.invoice_sales@ == old(self).invoice_sales@,
                self.audit_log@ == old(self).audit_log@,
                pre == old(self).invoices@,
                sum as int == payment_sum(old(self).payments@, old(self).sales@, invoice_id@),
                forall|j: int| i <= j < n ==> self.invoices@[j] == pre[j],
                forall|j: int|
                    0 <= j < i ==> self.invoices@[j] == recomputed_rows(
                        pre,
                        old(self).payments@,
                        old(self).sales@,
                        invoice_id@,
                        now,
                    )[j],
                found == exists|j: int| 0 <= j < i && pre[j].id@ == invoice_id@,
                changed == exists|j: int|
                    0 <= j < i && pre[j].id@ == invoice_id@ && !pre[j].is_deleted
                        && reconcile_writes(
                        pre[j],
                        payment_sum(old(self).payments@, old(self).sales@, invoice_id@),
                    ),
            decreases n - i,
        {
            let ghost total = payment_sum(old(self).payments@, old(self).sales@, invoice_id@);
            if self.invoices[i].id == *invoice_id {
                found = true;
                proof {
                    assert(pre[i as int].id@ == invoice_id@);
                }
                if !self.invoices[i].is_deleted {
                    let covered: bool = sum >= (self.invoices[i].total_amount_ttc as u128);
                    let row = &mut self.invoices[i];
                    if covered {
                        if !(row.is_paid && row.paid_at.is_some()) {
                            row.is_paid = true;
                            row.paid_at = Some(now);
                            changed = true;
                            proof {
                                assert(reconcile_writes(pre[i as int], total));
                            }
                        }
                    } else {
                        if row.is_paid || row.paid_at.is_some() {
                            row.is_paid = false;
                            row.paid_at = None;
                            changed = true;
                            proof {
                                assert(reconcile_writes(pre[i as int], total));
                            }
                        }
                    }
                }
            }
            proof {
                if found && !(exists|j: int| 0 <= j < i && pre[j].id@ == invoice_id@) {
                    assert(pre[i as int].id@ == invoice_id@);
                }
                if changed && !(exists|j: int|
                    0 <= j < i && pre[j].id@ == invoice_id@ && !pre[j].is_deleted
                        && reconcile_writes(pre[j], total)) {
                    assert(pre[i as int].id@ == invoice_id@ && !pre[i as int].is_deleted
                        && reconcile_writes(pre[i as int], total));
                }
            }
            i = i + 1;
        }
        if !found {
            proof {
                assert(self.invoices@ =~= pre);
            }
            return Err(Error::NotFound);
        }
        proof {
            assert(self.invoices@ =~= recomputed_rows(
                pre,
                old(self).payments@,
                old(self).sales@,
                invoice_id@,
                now,
            ));
        }
        Ok(changed)
    }
}


impl Ledger {
    /// Recomputes one invoice's paid status at the current time; the
    /// clock reading is an outside influence, so the contract holds
    /// for some time.
    pub fn recompute_invoice_status(&mut self, invoice_id: &String) -> (r: Result<bool, Error>)
        ensures
            exists|t: u64|
                #[trigger] recompute_invoice_status_post(
                    *old(self),
                    *final(self),
                    invoice_id@,
                    r,
                    t,
                ),
    {
        let now: u64 = crate::clock::now_millis();
        let r = self.recompute_invoice_status_at(invoice_id, now);
        proof {
            assert(recompute_invoice_status_post(*old(self), *self, invoice_id@, r, now));
        }
        r
    }
}

} // verus!
